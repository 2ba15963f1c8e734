//! System for type-checking channel ID bounds.
//!
//! Each newtype here wraps a channel ID known, by how it was obtained, to have some of its
//! components fixed: its direction relative to the local side, which side minted it, and whether
//! it is oneshot. Sorting a channel ID by a component refines it into the matching newtype.
use super::common::{ChanId, Dir, Side};
use vstd::prelude::*;

verus! {

/// Channel ID categorized by its direction relative to the local side.
#[derive(Debug, Copy, Clone, PartialEq, Eq, Hash)]
pub enum SortByDir<A, B> {
    LocalSender(A),
    LocalReceiver(B),
}

/// Channel ID categorized by which side minted it relative to the local side.
#[derive(Debug, Copy, Clone, PartialEq, Eq, Hash)]
pub enum SortByMintedBy<A, B> {
    LocallyMinted(A),
    RemotelyMinted(B),
}

/// Channel ID categorized by whether it is multishot.
#[derive(Debug, Copy, Clone, PartialEq, Eq, Hash)]
pub enum SortByIsOneshot<A, B> {
    Multishot(A),
    Oneshot(B),
}

impl ChanId {
    /// This channel ID itself.
    pub open spec fn id(self) -> ChanId {
        self
    }

    /// Categorize this channel ID by its direction relative to the local side.
    pub fn sort_by_dir(self, side: Side) -> (r: SortByDir<ChanIdLocalSender, ChanIdLocalReceiver>)
        ensures
            side.0 != self.id().sender_bit() ==> (r matches SortByDir::LocalReceiver(c) && c.id() == self.id()),
            !(side.0 != self.id().sender_bit()) ==> (r matches SortByDir::LocalSender(c) && c.id() == self.id()),
    {
        if self.dir().side_to() == side {
            SortByDir::LocalReceiver(ChanIdLocalReceiver::new_unchecked(self))
        } else {
            SortByDir::LocalSender(ChanIdLocalSender::new_unchecked(self))
        }
    }
    /// Categorize this channel ID by which side minted it relative to the local side.
    pub fn sort_by_minted_by(self, side: Side) -> (r: SortByMintedBy<ChanIdLocallyMinted, ChanIdRemotelyMinted>)
        ensures
            side.0 == self.id().creator_bit() ==> (r matches SortByMintedBy::LocallyMinted(c) && c.id() == self.id()),
            !(side.0 == self.id().creator_bit()) ==> (r matches SortByMintedBy::RemotelyMinted(c) && c.id() == self.id()),
    {
        if self.minted_by() == side {
            SortByMintedBy::LocallyMinted(ChanIdLocallyMinted::new_unchecked(self))
        } else {
            SortByMintedBy::RemotelyMinted(ChanIdRemotelyMinted::new_unchecked(self))
        }
    }
    /// Categorize this channel ID by whether it is multishot.
    pub fn sort_by_is_oneshot(self) -> (r: SortByIsOneshot<ChanIdMultishot, ChanIdOneshot>)
        ensures
            self.id().oneshot_bit() ==> (r matches SortByIsOneshot::Oneshot(c) && c.id() == self.id()),
            !(self.id().oneshot_bit()) ==> (r matches SortByIsOneshot::Multishot(c) && c.id() == self.id()),
    {
        if self.is_oneshot() {
            SortByIsOneshot::Oneshot(ChanIdOneshot::new_unchecked(self))
        } else {
            SortByIsOneshot::Multishot(ChanIdMultishot::new_unchecked(self))
        }
    }
}

/// Newtype wrapper around a channel ID that is multishot.
#[derive(Debug, Copy, Clone, PartialEq, Eq, Hash, Structural)]
pub struct ChanIdMultishot(ChanId);

impl ChanIdMultishot {
    /// The wrapped channel ID.
    pub closed spec fn id(self) -> ChanId {
        self.0
    }

    /// The newtype wrapping a channel ID.
    pub closed spec fn wrap(chan_id: ChanId) -> Self {
        ChanIdMultishot(chan_id)
    }

    /// Construct without checking component constraints.
    pub fn new_unchecked(chan_id: ChanId) -> (r: Self)
        ensures
            r.id() == chan_id,
            r == Self::wrap(chan_id),
    {
        ChanIdMultishot(chan_id)
    }

    /// Get direction part.
    pub fn dir(self) -> (r: Dir)
        ensures
            r == (if self.id().sender_bit() { Dir::ToClient } else { Dir::ToServer }),
    {
        self.0.dir()
    }

    /// Categorize this channel ID by its direction relative to the local side.
    pub fn sort_by_dir(self, side: Side) -> (r: SortByDir<ChanIdLocalSenderMultishot, ChanIdLocalReceiverMultishot>)
        ensures
            side.0 != self.id().sender_bit() ==> (r matches SortByDir::LocalReceiver(c) && c.id() == self.id()),
            !(side.0 != self.id().sender_bit()) ==> (r matches SortByDir::LocalSender(c) && c.id() == self.id()),
    {
        if self.dir().side_to() == side {
            SortByDir::LocalReceiver(ChanIdLocalReceiverMultishot::new_unchecked(self.0))
        } else {
            SortByDir::LocalSender(ChanIdLocalSenderMultishot::new_unchecked(self.0))
        }
    }

    /// Get minted-by part.
    pub fn minted_by(self) -> (r: Side)
        ensures
            r.0 == self.id().creator_bit(),
    {
        self.0.minted_by()
    }

    /// Categorize this channel ID by which side minted it relative to the local side.
    pub fn sort_by_minted_by(self, side: Side) -> (r: SortByMintedBy<ChanIdLocallyMintedMultishot, ChanIdRemotelyMintedMultishot>)
        ensures
            side.0 == self.id().creator_bit() ==> (r matches SortByMintedBy::LocallyMinted(c) && c.id() == self.id()),
            !(side.0 == self.id().creator_bit()) ==> (r matches SortByMintedBy::RemotelyMinted(c) && c.id() == self.id()),
    {
        if self.minted_by() == side {
            SortByMintedBy::LocallyMinted(ChanIdLocallyMintedMultishot::new_unchecked(self.0))
        } else {
            SortByMintedBy::RemotelyMinted(ChanIdRemotelyMintedMultishot::new_unchecked(self.0))
        }
    }

    /// Get channel index part.
    pub fn idx(self) -> (r: u64)
        ensures
            r == self.id().idx_part(),
    {
        self.0.idx()
    }
}

impl From<ChanIdMultishot> for ChanId {
    fn from(subtype: ChanIdMultishot) -> (r: ChanId) {
        subtype.0
    }
}

impl vstd::std_specs::convert::FromSpecImpl<ChanIdMultishot> for ChanId {
    open spec fn obeys_from_spec() -> bool {
        true
    }

    open spec fn from_spec(v: ChanIdMultishot) -> ChanId {
        v.id()
    }
}

/// Newtype wrapper around a channel ID that is oneshot.
#[derive(Debug, Copy, Clone, PartialEq, Eq, Hash, Structural)]
pub struct ChanIdOneshot(ChanId);

impl ChanIdOneshot {
    /// The wrapped channel ID.
    pub closed spec fn id(self) -> ChanId {
        self.0
    }

    /// The newtype wrapping a channel ID.
    pub closed spec fn wrap(chan_id: ChanId) -> Self {
        ChanIdOneshot(chan_id)
    }

    /// Construct without checking component constraints.
    pub fn new_unchecked(chan_id: ChanId) -> (r: Self)
        ensures
            r.id() == chan_id,
            r == Self::wrap(chan_id),
    {
        ChanIdOneshot(chan_id)
    }

    /// Get direction part.
    pub fn dir(self) -> (r: Dir)
        ensures
            r == (if self.id().sender_bit() { Dir::ToClient } else { Dir::ToServer }),
    {
        self.0.dir()
    }

    /// Categorize this channel ID by its direction relative to the local side.
    pub fn sort_by_dir(self, side: Side) -> (r: SortByDir<ChanIdLocalSenderOneshot, ChanIdLocalReceiverOneshot>)
        ensures
            side.0 != self.id().sender_bit() ==> (r matches SortByDir::LocalReceiver(c) && c.id() == self.id()),
            !(side.0 != self.id().sender_bit()) ==> (r matches SortByDir::LocalSender(c) && c.id() == self.id()),
    {
        if self.dir().side_to() == side {
            SortByDir::LocalReceiver(ChanIdLocalReceiverOneshot::new_unchecked(self.0))
        } else {
            SortByDir::LocalSender(ChanIdLocalSenderOneshot::new_unchecked(self.0))
        }
    }

    /// Get minted-by part.
    pub fn minted_by(self) -> (r: Side)
        ensures
            r.0 == self.id().creator_bit(),
    {
        self.0.minted_by()
    }

    /// Categorize this channel ID by which side minted it relative to the local side.
    pub fn sort_by_minted_by(self, side: Side) -> (r: SortByMintedBy<ChanIdLocallyMintedOneshot, ChanIdRemotelyMintedOneshot>)
        ensures
            side.0 == self.id().creator_bit() ==> (r matches SortByMintedBy::LocallyMinted(c) && c.id() == self.id()),
            !(side.0 == self.id().creator_bit()) ==> (r matches SortByMintedBy::RemotelyMinted(c) && c.id() == self.id()),
    {
        if self.minted_by() == side {
            SortByMintedBy::LocallyMinted(ChanIdLocallyMintedOneshot::new_unchecked(self.0))
        } else {
            SortByMintedBy::RemotelyMinted(ChanIdRemotelyMintedOneshot::new_unchecked(self.0))
        }
    }

    /// Get channel index part.
    pub fn idx(self) -> (r: u64)
        ensures
            r == self.id().idx_part(),
    {
        self.0.idx()
    }
}

impl From<ChanIdOneshot> for ChanId {
    fn from(subtype: ChanIdOneshot) -> (r: ChanId) {
        subtype.0
    }
}

impl vstd::std_specs::convert::FromSpecImpl<ChanIdOneshot> for ChanId {
    open spec fn obeys_from_spec() -> bool {
        true
    }

    open spec fn from_spec(v: ChanIdOneshot) -> ChanId {
        v.id()
    }
}

/// Newtype wrapper around a channel ID that is minted by the local side.
#[derive(Debug, Copy, Clone, PartialEq, Eq, Hash, Structural)]
pub struct ChanIdLocallyMinted(ChanId);

impl ChanIdLocallyMinted {
    /// The wrapped channel ID.
    pub closed spec fn id(self) -> ChanId {
        self.0
    }

    /// The newtype wrapping a channel ID.
    pub closed spec fn wrap(chan_id: ChanId) -> Self {
        ChanIdLocallyMinted(chan_id)
    }

    /// Construct without checking component constraints.
    pub fn new_unchecked(chan_id: ChanId) -> (r: Self)
        ensures
            r.id() == chan_id,
            r == Self::wrap(chan_id),
    {
        ChanIdLocallyMinted(chan_id)
    }

    /// Get direction part.
    pub fn dir(self) -> (r: Dir)
        ensures
            r == (if self.id().sender_bit() { Dir::ToClient } else { Dir::ToServer }),
    {
        self.0.dir()
    }

    /// Categorize this channel ID by its direction relative to the local side.
    pub fn sort_by_dir(self, side: Side) -> (r: SortByDir<ChanIdLocalSenderLocallyMinted, ChanIdLocalReceiverLocallyMinted>)
        ensures
            side.0 != self.id().sender_bit() ==> (r matches SortByDir::LocalReceiver(c) && c.id() == self.id()),
            !(side.0 != self.id().sender_bit()) ==> (r matches SortByDir::LocalSender(c) && c.id() == self.id()),
    {
        if self.dir().side_to() == side {
            SortByDir::LocalReceiver(ChanIdLocalReceiverLocallyMinted::new_unchecked(self.0))
        } else {
            SortByDir::LocalSender(ChanIdLocalSenderLocallyMinted::new_unchecked(self.0))
        }
    }

    /// Get is-oneshot part.
    pub fn is_oneshot(self) -> (r: bool)
        ensures
            r == self.id().oneshot_bit(),
    {
        self.0.is_oneshot()
    }

    /// Categorize this channel ID by whether it is multishot.
    pub fn sort_by_is_oneshot(self) -> (r: SortByIsOneshot<ChanIdLocallyMintedMultishot, ChanIdLocallyMintedOneshot>)
        ensures
            self.id().oneshot_bit() ==> (r matches SortByIsOneshot::Oneshot(c) && c.id() == self.id()),
            !(self.id().oneshot_bit()) ==> (r matches SortByIsOneshot::Multishot(c) && c.id() == self.id()),
    {
        if self.is_oneshot() {
            SortByIsOneshot::Oneshot(ChanIdLocallyMintedOneshot::new_unchecked(self.0))
        } else {
            SortByIsOneshot::Multishot(ChanIdLocallyMintedMultishot::new_unchecked(self.0))
        }
    }

    /// Get channel index part.
    pub fn idx(self) -> (r: u64)
        ensures
            r == self.id().idx_part(),
    {
        self.0.idx()
    }
}

impl From<ChanIdLocallyMinted> for ChanId {
    fn from(subtype: ChanIdLocallyMinted) -> (r: ChanId) {
        subtype.0
    }
}

impl vstd::std_specs::convert::FromSpecImpl<ChanIdLocallyMinted> for ChanId {
    open spec fn obeys_from_spec() -> bool {
        true
    }

    open spec fn from_spec(v: ChanIdLocallyMinted) -> ChanId {
        v.id()
    }
}

/// Newtype wrapper around a channel ID that is minted by the local side, multishot.
#[derive(Debug, Copy, Clone, PartialEq, Eq, Hash, Structural)]
pub struct ChanIdLocallyMintedMultishot(ChanId);

impl ChanIdLocallyMintedMultishot {
    /// The wrapped channel ID.
    pub closed spec fn id(self) -> ChanId {
        self.0
    }

    /// The newtype wrapping a channel ID.
    pub closed spec fn wrap(chan_id: ChanId) -> Self {
        ChanIdLocallyMintedMultishot(chan_id)
    }

    /// Construct without checking component constraints.
    pub fn new_unchecked(chan_id: ChanId) -> (r: Self)
        ensures
            r.id() == chan_id,
            r == Self::wrap(chan_id),
    {
        ChanIdLocallyMintedMultishot(chan_id)
    }

    /// Get direction part.
    pub fn dir(self) -> (r: Dir)
        ensures
            r == (if self.id().sender_bit() { Dir::ToClient } else { Dir::ToServer }),
    {
        self.0.dir()
    }

    /// Categorize this channel ID by its direction relative to the local side.
    pub fn sort_by_dir(self, side: Side) -> (r: SortByDir<ChanIdLocalSenderLocallyMintedMultishot, ChanIdLocalReceiverLocallyMintedMultishot>)
        ensures
            side.0 != self.id().sender_bit() ==> (r matches SortByDir::LocalReceiver(c) && c.id() == self.id()),
            !(side.0 != self.id().sender_bit()) ==> (r matches SortByDir::LocalSender(c) && c.id() == self.id()),
    {
        if self.dir().side_to() == side {
            SortByDir::LocalReceiver(ChanIdLocalReceiverLocallyMintedMultishot::new_unchecked(self.0))
        } else {
            SortByDir::LocalSender(ChanIdLocalSenderLocallyMintedMultishot::new_unchecked(self.0))
        }
    }

    /// Get channel index part.
    pub fn idx(self) -> (r: u64)
        ensures
            r == self.id().idx_part(),
    {
        self.0.idx()
    }
}

impl From<ChanIdLocallyMintedMultishot> for ChanId {
    fn from(subtype: ChanIdLocallyMintedMultishot) -> (r: ChanId) {
        subtype.0
    }
}

impl vstd::std_specs::convert::FromSpecImpl<ChanIdLocallyMintedMultishot> for ChanId {
    open spec fn obeys_from_spec() -> bool {
        true
    }

    open spec fn from_spec(v: ChanIdLocallyMintedMultishot) -> ChanId {
        v.id()
    }
}

impl From<ChanIdLocallyMintedMultishot> for ChanIdMultishot {
    fn from(subtype: ChanIdLocallyMintedMultishot) -> (r: Self) {
        ChanIdMultishot::new_unchecked(subtype.0)
    }
}

impl vstd::std_specs::convert::FromSpecImpl<ChanIdLocallyMintedMultishot> for ChanIdMultishot {
    open spec fn obeys_from_spec() -> bool {
        true
    }

    open spec fn from_spec(v: ChanIdLocallyMintedMultishot) -> ChanIdMultishot {
        ChanIdMultishot::wrap(v.id())
    }
}

impl From<ChanIdLocallyMintedMultishot> for ChanIdLocallyMinted {
    fn from(subtype: ChanIdLocallyMintedMultishot) -> (r: Self) {
        ChanIdLocallyMinted::new_unchecked(subtype.0)
    }
}

impl vstd::std_specs::convert::FromSpecImpl<ChanIdLocallyMintedMultishot> for ChanIdLocallyMinted {
    open spec fn obeys_from_spec() -> bool {
        true
    }

    open spec fn from_spec(v: ChanIdLocallyMintedMultishot) -> ChanIdLocallyMinted {
        ChanIdLocallyMinted::wrap(v.id())
    }
}

/// Newtype wrapper around a channel ID that is minted by the local side, oneshot.
#[derive(Debug, Copy, Clone, PartialEq, Eq, Hash, Structural)]
pub struct ChanIdLocallyMintedOneshot(ChanId);

impl ChanIdLocallyMintedOneshot {
    /// The wrapped channel ID.
    pub closed spec fn id(self) -> ChanId {
        self.0
    }

    /// The newtype wrapping a channel ID.
    pub closed spec fn wrap(chan_id: ChanId) -> Self {
        ChanIdLocallyMintedOneshot(chan_id)
    }

    /// Construct without checking component constraints.
    pub fn new_unchecked(chan_id: ChanId) -> (r: Self)
        ensures
            r.id() == chan_id,
            r == Self::wrap(chan_id),
    {
        ChanIdLocallyMintedOneshot(chan_id)
    }

    /// Get direction part.
    pub fn dir(self) -> (r: Dir)
        ensures
            r == (if self.id().sender_bit() { Dir::ToClient } else { Dir::ToServer }),
    {
        self.0.dir()
    }

    /// Categorize this channel ID by its direction relative to the local side.
    pub fn sort_by_dir(self, side: Side) -> (r: SortByDir<ChanIdLocalSenderLocallyMintedOneshot, ChanIdLocalReceiverLocallyMintedOneshot>)
        ensures
            side.0 != self.id().sender_bit() ==> (r matches SortByDir::LocalReceiver(c) && c.id() == self.id()),
            !(side.0 != self.id().sender_bit()) ==> (r matches SortByDir::LocalSender(c) && c.id() == self.id()),
    {
        if self.dir().side_to() == side {
            SortByDir::LocalReceiver(ChanIdLocalReceiverLocallyMintedOneshot::new_unchecked(self.0))
        } else {
            SortByDir::LocalSender(ChanIdLocalSenderLocallyMintedOneshot::new_unchecked(self.0))
        }
    }

    /// Get channel index part.
    pub fn idx(self) -> (r: u64)
        ensures
            r == self.id().idx_part(),
    {
        self.0.idx()
    }
}

impl From<ChanIdLocallyMintedOneshot> for ChanId {
    fn from(subtype: ChanIdLocallyMintedOneshot) -> (r: ChanId) {
        subtype.0
    }
}

impl vstd::std_specs::convert::FromSpecImpl<ChanIdLocallyMintedOneshot> for ChanId {
    open spec fn obeys_from_spec() -> bool {
        true
    }

    open spec fn from_spec(v: ChanIdLocallyMintedOneshot) -> ChanId {
        v.id()
    }
}

impl From<ChanIdLocallyMintedOneshot> for ChanIdOneshot {
    fn from(subtype: ChanIdLocallyMintedOneshot) -> (r: Self) {
        ChanIdOneshot::new_unchecked(subtype.0)
    }
}

impl vstd::std_specs::convert::FromSpecImpl<ChanIdLocallyMintedOneshot> for ChanIdOneshot {
    open spec fn obeys_from_spec() -> bool {
        true
    }

    open spec fn from_spec(v: ChanIdLocallyMintedOneshot) -> ChanIdOneshot {
        ChanIdOneshot::wrap(v.id())
    }
}

impl From<ChanIdLocallyMintedOneshot> for ChanIdLocallyMinted {
    fn from(subtype: ChanIdLocallyMintedOneshot) -> (r: Self) {
        ChanIdLocallyMinted::new_unchecked(subtype.0)
    }
}

impl vstd::std_specs::convert::FromSpecImpl<ChanIdLocallyMintedOneshot> for ChanIdLocallyMinted {
    open spec fn obeys_from_spec() -> bool {
        true
    }

    open spec fn from_spec(v: ChanIdLocallyMintedOneshot) -> ChanIdLocallyMinted {
        ChanIdLocallyMinted::wrap(v.id())
    }
}

/// Newtype wrapper around a channel ID that is minted by the remote side.
#[derive(Debug, Copy, Clone, PartialEq, Eq, Hash, Structural)]
pub struct ChanIdRemotelyMinted(ChanId);

impl ChanIdRemotelyMinted {
    /// The wrapped channel ID.
    pub closed spec fn id(self) -> ChanId {
        self.0
    }

    /// The newtype wrapping a channel ID.
    pub closed spec fn wrap(chan_id: ChanId) -> Self {
        ChanIdRemotelyMinted(chan_id)
    }

    /// Construct without checking component constraints.
    pub fn new_unchecked(chan_id: ChanId) -> (r: Self)
        ensures
            r.id() == chan_id,
            r == Self::wrap(chan_id),
    {
        ChanIdRemotelyMinted(chan_id)
    }

    /// Get direction part.
    pub fn dir(self) -> (r: Dir)
        ensures
            r == (if self.id().sender_bit() { Dir::ToClient } else { Dir::ToServer }),
    {
        self.0.dir()
    }

    /// Categorize this channel ID by its direction relative to the local side.
    pub fn sort_by_dir(self, side: Side) -> (r: SortByDir<ChanIdLocalSenderRemotelyMinted, ChanIdLocalReceiverRemotelyMinted>)
        ensures
            side.0 != self.id().sender_bit() ==> (r matches SortByDir::LocalReceiver(c) && c.id() == self.id()),
            !(side.0 != self.id().sender_bit()) ==> (r matches SortByDir::LocalSender(c) && c.id() == self.id()),
    {
        if self.dir().side_to() == side {
            SortByDir::LocalReceiver(ChanIdLocalReceiverRemotelyMinted::new_unchecked(self.0))
        } else {
            SortByDir::LocalSender(ChanIdLocalSenderRemotelyMinted::new_unchecked(self.0))
        }
    }

    /// Get is-oneshot part.
    pub fn is_oneshot(self) -> (r: bool)
        ensures
            r == self.id().oneshot_bit(),
    {
        self.0.is_oneshot()
    }

    /// Categorize this channel ID by whether it is multishot.
    pub fn sort_by_is_oneshot(self) -> (r: SortByIsOneshot<ChanIdRemotelyMintedMultishot, ChanIdRemotelyMintedOneshot>)
        ensures
            self.id().oneshot_bit() ==> (r matches SortByIsOneshot::Oneshot(c) && c.id() == self.id()),
            !(self.id().oneshot_bit()) ==> (r matches SortByIsOneshot::Multishot(c) && c.id() == self.id()),
    {
        if self.is_oneshot() {
            SortByIsOneshot::Oneshot(ChanIdRemotelyMintedOneshot::new_unchecked(self.0))
        } else {
            SortByIsOneshot::Multishot(ChanIdRemotelyMintedMultishot::new_unchecked(self.0))
        }
    }

    /// Get channel index part.
    pub fn idx(self) -> (r: u64)
        ensures
            r == self.id().idx_part(),
    {
        self.0.idx()
    }
}

impl From<ChanIdRemotelyMinted> for ChanId {
    fn from(subtype: ChanIdRemotelyMinted) -> (r: ChanId) {
        subtype.0
    }
}

impl vstd::std_specs::convert::FromSpecImpl<ChanIdRemotelyMinted> for ChanId {
    open spec fn obeys_from_spec() -> bool {
        true
    }

    open spec fn from_spec(v: ChanIdRemotelyMinted) -> ChanId {
        v.id()
    }
}

/// Newtype wrapper around a channel ID that is minted by the remote side, multishot.
#[derive(Debug, Copy, Clone, PartialEq, Eq, Hash, Structural)]
pub struct ChanIdRemotelyMintedMultishot(ChanId);

impl ChanIdRemotelyMintedMultishot {
    /// The wrapped channel ID.
    pub closed spec fn id(self) -> ChanId {
        self.0
    }

    /// The newtype wrapping a channel ID.
    pub closed spec fn wrap(chan_id: ChanId) -> Self {
        ChanIdRemotelyMintedMultishot(chan_id)
    }

    /// Construct without checking component constraints.
    pub fn new_unchecked(chan_id: ChanId) -> (r: Self)
        ensures
            r.id() == chan_id,
            r == Self::wrap(chan_id),
    {
        ChanIdRemotelyMintedMultishot(chan_id)
    }

    /// Get direction part.
    pub fn dir(self) -> (r: Dir)
        ensures
            r == (if self.id().sender_bit() { Dir::ToClient } else { Dir::ToServer }),
    {
        self.0.dir()
    }

    /// Categorize this channel ID by its direction relative to the local side.
    pub fn sort_by_dir(self, side: Side) -> (r: SortByDir<ChanIdLocalSenderRemotelyMintedMultishot, ChanIdLocalReceiverRemotelyMintedMultishot>)
        ensures
            side.0 != self.id().sender_bit() ==> (r matches SortByDir::LocalReceiver(c) && c.id() == self.id()),
            !(side.0 != self.id().sender_bit()) ==> (r matches SortByDir::LocalSender(c) && c.id() == self.id()),
    {
        if self.dir().side_to() == side {
            SortByDir::LocalReceiver(ChanIdLocalReceiverRemotelyMintedMultishot::new_unchecked(self.0))
        } else {
            SortByDir::LocalSender(ChanIdLocalSenderRemotelyMintedMultishot::new_unchecked(self.0))
        }
    }

    /// Get channel index part.
    pub fn idx(self) -> (r: u64)
        ensures
            r == self.id().idx_part(),
    {
        self.0.idx()
    }
}

impl From<ChanIdRemotelyMintedMultishot> for ChanId {
    fn from(subtype: ChanIdRemotelyMintedMultishot) -> (r: ChanId) {
        subtype.0
    }
}

impl vstd::std_specs::convert::FromSpecImpl<ChanIdRemotelyMintedMultishot> for ChanId {
    open spec fn obeys_from_spec() -> bool {
        true
    }

    open spec fn from_spec(v: ChanIdRemotelyMintedMultishot) -> ChanId {
        v.id()
    }
}

impl From<ChanIdRemotelyMintedMultishot> for ChanIdMultishot {
    fn from(subtype: ChanIdRemotelyMintedMultishot) -> (r: Self) {
        ChanIdMultishot::new_unchecked(subtype.0)
    }
}

impl vstd::std_specs::convert::FromSpecImpl<ChanIdRemotelyMintedMultishot> for ChanIdMultishot {
    open spec fn obeys_from_spec() -> bool {
        true
    }

    open spec fn from_spec(v: ChanIdRemotelyMintedMultishot) -> ChanIdMultishot {
        ChanIdMultishot::wrap(v.id())
    }
}

impl From<ChanIdRemotelyMintedMultishot> for ChanIdRemotelyMinted {
    fn from(subtype: ChanIdRemotelyMintedMultishot) -> (r: Self) {
        ChanIdRemotelyMinted::new_unchecked(subtype.0)
    }
}

impl vstd::std_specs::convert::FromSpecImpl<ChanIdRemotelyMintedMultishot> for ChanIdRemotelyMinted {
    open spec fn obeys_from_spec() -> bool {
        true
    }

    open spec fn from_spec(v: ChanIdRemotelyMintedMultishot) -> ChanIdRemotelyMinted {
        ChanIdRemotelyMinted::wrap(v.id())
    }
}

/// Newtype wrapper around a channel ID that is minted by the remote side, oneshot.
#[derive(Debug, Copy, Clone, PartialEq, Eq, Hash, Structural)]
pub struct ChanIdRemotelyMintedOneshot(ChanId);

impl ChanIdRemotelyMintedOneshot {
    /// The wrapped channel ID.
    pub closed spec fn id(self) -> ChanId {
        self.0
    }

    /// The newtype wrapping a channel ID.
    pub closed spec fn wrap(chan_id: ChanId) -> Self {
        ChanIdRemotelyMintedOneshot(chan_id)
    }

    /// Construct without checking component constraints.
    pub fn new_unchecked(chan_id: ChanId) -> (r: Self)
        ensures
            r.id() == chan_id,
            r == Self::wrap(chan_id),
    {
        ChanIdRemotelyMintedOneshot(chan_id)
    }

    /// Get direction part.
    pub fn dir(self) -> (r: Dir)
        ensures
            r == (if self.id().sender_bit() { Dir::ToClient } else { Dir::ToServer }),
    {
        self.0.dir()
    }

    /// Categorize this channel ID by its direction relative to the local side.
    pub fn sort_by_dir(self, side: Side) -> (r: SortByDir<ChanIdLocalSenderRemotelyMintedOneshot, ChanIdLocalReceiverRemotelyMintedOneshot>)
        ensures
            side.0 != self.id().sender_bit() ==> (r matches SortByDir::LocalReceiver(c) && c.id() == self.id()),
            !(side.0 != self.id().sender_bit()) ==> (r matches SortByDir::LocalSender(c) && c.id() == self.id()),
    {
        if self.dir().side_to() == side {
            SortByDir::LocalReceiver(ChanIdLocalReceiverRemotelyMintedOneshot::new_unchecked(self.0))
        } else {
            SortByDir::LocalSender(ChanIdLocalSenderRemotelyMintedOneshot::new_unchecked(self.0))
        }
    }

    /// Get channel index part.
    pub fn idx(self) -> (r: u64)
        ensures
            r == self.id().idx_part(),
    {
        self.0.idx()
    }
}

impl From<ChanIdRemotelyMintedOneshot> for ChanId {
    fn from(subtype: ChanIdRemotelyMintedOneshot) -> (r: ChanId) {
        subtype.0
    }
}

impl vstd::std_specs::convert::FromSpecImpl<ChanIdRemotelyMintedOneshot> for ChanId {
    open spec fn obeys_from_spec() -> bool {
        true
    }

    open spec fn from_spec(v: ChanIdRemotelyMintedOneshot) -> ChanId {
        v.id()
    }
}

impl From<ChanIdRemotelyMintedOneshot> for ChanIdOneshot {
    fn from(subtype: ChanIdRemotelyMintedOneshot) -> (r: Self) {
        ChanIdOneshot::new_unchecked(subtype.0)
    }
}

impl vstd::std_specs::convert::FromSpecImpl<ChanIdRemotelyMintedOneshot> for ChanIdOneshot {
    open spec fn obeys_from_spec() -> bool {
        true
    }

    open spec fn from_spec(v: ChanIdRemotelyMintedOneshot) -> ChanIdOneshot {
        ChanIdOneshot::wrap(v.id())
    }
}

impl From<ChanIdRemotelyMintedOneshot> for ChanIdRemotelyMinted {
    fn from(subtype: ChanIdRemotelyMintedOneshot) -> (r: Self) {
        ChanIdRemotelyMinted::new_unchecked(subtype.0)
    }
}

impl vstd::std_specs::convert::FromSpecImpl<ChanIdRemotelyMintedOneshot> for ChanIdRemotelyMinted {
    open spec fn obeys_from_spec() -> bool {
        true
    }

    open spec fn from_spec(v: ChanIdRemotelyMintedOneshot) -> ChanIdRemotelyMinted {
        ChanIdRemotelyMinted::wrap(v.id())
    }
}

/// Newtype wrapper around a channel ID that is sent by the local side.
#[derive(Debug, Copy, Clone, PartialEq, Eq, Hash, Structural)]
pub struct ChanIdLocalSender(ChanId);

impl ChanIdLocalSender {
    /// The wrapped channel ID.
    pub closed spec fn id(self) -> ChanId {
        self.0
    }

    /// The newtype wrapping a channel ID.
    pub closed spec fn wrap(chan_id: ChanId) -> Self {
        ChanIdLocalSender(chan_id)
    }

    /// Construct without checking component constraints.
    pub fn new_unchecked(chan_id: ChanId) -> (r: Self)
        ensures
            r.id() == chan_id,
            r == Self::wrap(chan_id),
    {
        ChanIdLocalSender(chan_id)
    }

    /// Get minted-by part.
    pub fn minted_by(self) -> (r: Side)
        ensures
            r.0 == self.id().creator_bit(),
    {
        self.0.minted_by()
    }

    /// Categorize this channel ID by which side minted it relative to the local side.
    pub fn sort_by_minted_by(self, side: Side) -> (r: SortByMintedBy<ChanIdLocalSenderLocallyMinted, ChanIdLocalSenderRemotelyMinted>)
        ensures
            side.0 == self.id().creator_bit() ==> (r matches SortByMintedBy::LocallyMinted(c) && c.id() == self.id()),
            !(side.0 == self.id().creator_bit()) ==> (r matches SortByMintedBy::RemotelyMinted(c) && c.id() == self.id()),
    {
        if self.minted_by() == side {
            SortByMintedBy::LocallyMinted(ChanIdLocalSenderLocallyMinted::new_unchecked(self.0))
        } else {
            SortByMintedBy::RemotelyMinted(ChanIdLocalSenderRemotelyMinted::new_unchecked(self.0))
        }
    }

    /// Get is-oneshot part.
    pub fn is_oneshot(self) -> (r: bool)
        ensures
            r == self.id().oneshot_bit(),
    {
        self.0.is_oneshot()
    }

    /// Categorize this channel ID by whether it is multishot.
    pub fn sort_by_is_oneshot(self) -> (r: SortByIsOneshot<ChanIdLocalSenderMultishot, ChanIdLocalSenderOneshot>)
        ensures
            self.id().oneshot_bit() ==> (r matches SortByIsOneshot::Oneshot(c) && c.id() == self.id()),
            !(self.id().oneshot_bit()) ==> (r matches SortByIsOneshot::Multishot(c) && c.id() == self.id()),
    {
        if self.is_oneshot() {
            SortByIsOneshot::Oneshot(ChanIdLocalSenderOneshot::new_unchecked(self.0))
        } else {
            SortByIsOneshot::Multishot(ChanIdLocalSenderMultishot::new_unchecked(self.0))
        }
    }

    /// Get channel index part.
    pub fn idx(self) -> (r: u64)
        ensures
            r == self.id().idx_part(),
    {
        self.0.idx()
    }
}

impl From<ChanIdLocalSender> for ChanId {
    fn from(subtype: ChanIdLocalSender) -> (r: ChanId) {
        subtype.0
    }
}

impl vstd::std_specs::convert::FromSpecImpl<ChanIdLocalSender> for ChanId {
    open spec fn obeys_from_spec() -> bool {
        true
    }

    open spec fn from_spec(v: ChanIdLocalSender) -> ChanId {
        v.id()
    }
}

/// Newtype wrapper around a channel ID that is sent by the local side, multishot.
#[derive(Debug, Copy, Clone, PartialEq, Eq, Hash, Structural)]
pub struct ChanIdLocalSenderMultishot(ChanId);

impl ChanIdLocalSenderMultishot {
    /// The wrapped channel ID.
    pub closed spec fn id(self) -> ChanId {
        self.0
    }

    /// The newtype wrapping a channel ID.
    pub closed spec fn wrap(chan_id: ChanId) -> Self {
        ChanIdLocalSenderMultishot(chan_id)
    }

    /// Construct without checking component constraints.
    pub fn new_unchecked(chan_id: ChanId) -> (r: Self)
        ensures
            r.id() == chan_id,
            r == Self::wrap(chan_id),
    {
        ChanIdLocalSenderMultishot(chan_id)
    }

    /// Get minted-by part.
    pub fn minted_by(self) -> (r: Side)
        ensures
            r.0 == self.id().creator_bit(),
    {
        self.0.minted_by()
    }

    /// Categorize this channel ID by which side minted it relative to the local side.
    pub fn sort_by_minted_by(self, side: Side) -> (r: SortByMintedBy<ChanIdLocalSenderLocallyMintedMultishot, ChanIdLocalSenderRemotelyMintedMultishot>)
        ensures
            side.0 == self.id().creator_bit() ==> (r matches SortByMintedBy::LocallyMinted(c) && c.id() == self.id()),
            !(side.0 == self.id().creator_bit()) ==> (r matches SortByMintedBy::RemotelyMinted(c) && c.id() == self.id()),
    {
        if self.minted_by() == side {
            SortByMintedBy::LocallyMinted(ChanIdLocalSenderLocallyMintedMultishot::new_unchecked(self.0))
        } else {
            SortByMintedBy::RemotelyMinted(ChanIdLocalSenderRemotelyMintedMultishot::new_unchecked(self.0))
        }
    }

    /// Get channel index part.
    pub fn idx(self) -> (r: u64)
        ensures
            r == self.id().idx_part(),
    {
        self.0.idx()
    }
}

impl From<ChanIdLocalSenderMultishot> for ChanId {
    fn from(subtype: ChanIdLocalSenderMultishot) -> (r: ChanId) {
        subtype.0
    }
}

impl vstd::std_specs::convert::FromSpecImpl<ChanIdLocalSenderMultishot> for ChanId {
    open spec fn obeys_from_spec() -> bool {
        true
    }

    open spec fn from_spec(v: ChanIdLocalSenderMultishot) -> ChanId {
        v.id()
    }
}

impl From<ChanIdLocalSenderMultishot> for ChanIdMultishot {
    fn from(subtype: ChanIdLocalSenderMultishot) -> (r: Self) {
        ChanIdMultishot::new_unchecked(subtype.0)
    }
}

impl vstd::std_specs::convert::FromSpecImpl<ChanIdLocalSenderMultishot> for ChanIdMultishot {
    open spec fn obeys_from_spec() -> bool {
        true
    }

    open spec fn from_spec(v: ChanIdLocalSenderMultishot) -> ChanIdMultishot {
        ChanIdMultishot::wrap(v.id())
    }
}

impl From<ChanIdLocalSenderMultishot> for ChanIdLocalSender {
    fn from(subtype: ChanIdLocalSenderMultishot) -> (r: Self) {
        ChanIdLocalSender::new_unchecked(subtype.0)
    }
}

impl vstd::std_specs::convert::FromSpecImpl<ChanIdLocalSenderMultishot> for ChanIdLocalSender {
    open spec fn obeys_from_spec() -> bool {
        true
    }

    open spec fn from_spec(v: ChanIdLocalSenderMultishot) -> ChanIdLocalSender {
        ChanIdLocalSender::wrap(v.id())
    }
}

/// Newtype wrapper around a channel ID that is sent by the local side, oneshot.
#[derive(Debug, Copy, Clone, PartialEq, Eq, Hash, Structural)]
pub struct ChanIdLocalSenderOneshot(ChanId);

impl ChanIdLocalSenderOneshot {
    /// The wrapped channel ID.
    pub closed spec fn id(self) -> ChanId {
        self.0
    }

    /// The newtype wrapping a channel ID.
    pub closed spec fn wrap(chan_id: ChanId) -> Self {
        ChanIdLocalSenderOneshot(chan_id)
    }

    /// Construct without checking component constraints.
    pub fn new_unchecked(chan_id: ChanId) -> (r: Self)
        ensures
            r.id() == chan_id,
            r == Self::wrap(chan_id),
    {
        ChanIdLocalSenderOneshot(chan_id)
    }

    /// Get minted-by part.
    pub fn minted_by(self) -> (r: Side)
        ensures
            r.0 == self.id().creator_bit(),
    {
        self.0.minted_by()
    }

    /// Categorize this channel ID by which side minted it relative to the local side.
    pub fn sort_by_minted_by(self, side: Side) -> (r: SortByMintedBy<ChanIdLocalSenderLocallyMintedOneshot, ChanIdLocalSenderRemotelyMintedOneshot>)
        ensures
            side.0 == self.id().creator_bit() ==> (r matches SortByMintedBy::LocallyMinted(c) && c.id() == self.id()),
            !(side.0 == self.id().creator_bit()) ==> (r matches SortByMintedBy::RemotelyMinted(c) && c.id() == self.id()),
    {
        if self.minted_by() == side {
            SortByMintedBy::LocallyMinted(ChanIdLocalSenderLocallyMintedOneshot::new_unchecked(self.0))
        } else {
            SortByMintedBy::RemotelyMinted(ChanIdLocalSenderRemotelyMintedOneshot::new_unchecked(self.0))
        }
    }

    /// Get channel index part.
    pub fn idx(self) -> (r: u64)
        ensures
            r == self.id().idx_part(),
    {
        self.0.idx()
    }
}

impl From<ChanIdLocalSenderOneshot> for ChanId {
    fn from(subtype: ChanIdLocalSenderOneshot) -> (r: ChanId) {
        subtype.0
    }
}

impl vstd::std_specs::convert::FromSpecImpl<ChanIdLocalSenderOneshot> for ChanId {
    open spec fn obeys_from_spec() -> bool {
        true
    }

    open spec fn from_spec(v: ChanIdLocalSenderOneshot) -> ChanId {
        v.id()
    }
}

impl From<ChanIdLocalSenderOneshot> for ChanIdOneshot {
    fn from(subtype: ChanIdLocalSenderOneshot) -> (r: Self) {
        ChanIdOneshot::new_unchecked(subtype.0)
    }
}

impl vstd::std_specs::convert::FromSpecImpl<ChanIdLocalSenderOneshot> for ChanIdOneshot {
    open spec fn obeys_from_spec() -> bool {
        true
    }

    open spec fn from_spec(v: ChanIdLocalSenderOneshot) -> ChanIdOneshot {
        ChanIdOneshot::wrap(v.id())
    }
}

impl From<ChanIdLocalSenderOneshot> for ChanIdLocalSender {
    fn from(subtype: ChanIdLocalSenderOneshot) -> (r: Self) {
        ChanIdLocalSender::new_unchecked(subtype.0)
    }
}

impl vstd::std_specs::convert::FromSpecImpl<ChanIdLocalSenderOneshot> for ChanIdLocalSender {
    open spec fn obeys_from_spec() -> bool {
        true
    }

    open spec fn from_spec(v: ChanIdLocalSenderOneshot) -> ChanIdLocalSender {
        ChanIdLocalSender::wrap(v.id())
    }
}

/// Newtype wrapper around a channel ID that is sent by the local side, minted by the local side.
#[derive(Debug, Copy, Clone, PartialEq, Eq, Hash, Structural)]
pub struct ChanIdLocalSenderLocallyMinted(ChanId);

impl ChanIdLocalSenderLocallyMinted {
    /// The wrapped channel ID.
    pub closed spec fn id(self) -> ChanId {
        self.0
    }

    /// The newtype wrapping a channel ID.
    pub closed spec fn wrap(chan_id: ChanId) -> Self {
        ChanIdLocalSenderLocallyMinted(chan_id)
    }

    /// Construct without checking component constraints.
    pub fn new_unchecked(chan_id: ChanId) -> (r: Self)
        ensures
            r.id() == chan_id,
            r == Self::wrap(chan_id),
    {
        ChanIdLocalSenderLocallyMinted(chan_id)
    }

    /// Get is-oneshot part.
    pub fn is_oneshot(self) -> (r: bool)
        ensures
            r == self.id().oneshot_bit(),
    {
        self.0.is_oneshot()
    }

    /// Categorize this channel ID by whether it is multishot.
    pub fn sort_by_is_oneshot(self) -> (r: SortByIsOneshot<ChanIdLocalSenderLocallyMintedMultishot, ChanIdLocalSenderLocallyMintedOneshot>)
        ensures
            self.id().oneshot_bit() ==> (r matches SortByIsOneshot::Oneshot(c) && c.id() == self.id()),
            !(self.id().oneshot_bit()) ==> (r matches SortByIsOneshot::Multishot(c) && c.id() == self.id()),
    {
        if self.is_oneshot() {
            SortByIsOneshot::Oneshot(ChanIdLocalSenderLocallyMintedOneshot::new_unchecked(self.0))
        } else {
            SortByIsOneshot::Multishot(ChanIdLocalSenderLocallyMintedMultishot::new_unchecked(self.0))
        }
    }

    /// Get channel index part.
    pub fn idx(self) -> (r: u64)
        ensures
            r == self.id().idx_part(),
    {
        self.0.idx()
    }
}

impl From<ChanIdLocalSenderLocallyMinted> for ChanId {
    fn from(subtype: ChanIdLocalSenderLocallyMinted) -> (r: ChanId) {
        subtype.0
    }
}

impl vstd::std_specs::convert::FromSpecImpl<ChanIdLocalSenderLocallyMinted> for ChanId {
    open spec fn obeys_from_spec() -> bool {
        true
    }

    open spec fn from_spec(v: ChanIdLocalSenderLocallyMinted) -> ChanId {
        v.id()
    }
}

impl From<ChanIdLocalSenderLocallyMinted> for ChanIdLocallyMinted {
    fn from(subtype: ChanIdLocalSenderLocallyMinted) -> (r: Self) {
        ChanIdLocallyMinted::new_unchecked(subtype.0)
    }
}

impl vstd::std_specs::convert::FromSpecImpl<ChanIdLocalSenderLocallyMinted> for ChanIdLocallyMinted {
    open spec fn obeys_from_spec() -> bool {
        true
    }

    open spec fn from_spec(v: ChanIdLocalSenderLocallyMinted) -> ChanIdLocallyMinted {
        ChanIdLocallyMinted::wrap(v.id())
    }
}

impl From<ChanIdLocalSenderLocallyMinted> for ChanIdLocalSender {
    fn from(subtype: ChanIdLocalSenderLocallyMinted) -> (r: Self) {
        ChanIdLocalSender::new_unchecked(subtype.0)
    }
}

impl vstd::std_specs::convert::FromSpecImpl<ChanIdLocalSenderLocallyMinted> for ChanIdLocalSender {
    open spec fn obeys_from_spec() -> bool {
        true
    }

    open spec fn from_spec(v: ChanIdLocalSenderLocallyMinted) -> ChanIdLocalSender {
        ChanIdLocalSender::wrap(v.id())
    }
}

/// Newtype wrapper around a channel ID that is sent by the local side, minted by the local side, multishot.
#[derive(Debug, Copy, Clone, PartialEq, Eq, Hash, Structural)]
pub struct ChanIdLocalSenderLocallyMintedMultishot(ChanId);

impl ChanIdLocalSenderLocallyMintedMultishot {
    /// The wrapped channel ID.
    pub closed spec fn id(self) -> ChanId {
        self.0
    }

    /// The newtype wrapping a channel ID.
    pub closed spec fn wrap(chan_id: ChanId) -> Self {
        ChanIdLocalSenderLocallyMintedMultishot(chan_id)
    }

    /// Construct without checking component constraints.
    pub fn new_unchecked(chan_id: ChanId) -> (r: Self)
        ensures
            r.id() == chan_id,
            r == Self::wrap(chan_id),
    {
        ChanIdLocalSenderLocallyMintedMultishot(chan_id)
    }

    /// Get channel index part.
    pub fn idx(self) -> (r: u64)
        ensures
            r == self.id().idx_part(),
    {
        self.0.idx()
    }
}

impl From<ChanIdLocalSenderLocallyMintedMultishot> for ChanId {
    fn from(subtype: ChanIdLocalSenderLocallyMintedMultishot) -> (r: ChanId) {
        subtype.0
    }
}

impl vstd::std_specs::convert::FromSpecImpl<ChanIdLocalSenderLocallyMintedMultishot> for ChanId {
    open spec fn obeys_from_spec() -> bool {
        true
    }

    open spec fn from_spec(v: ChanIdLocalSenderLocallyMintedMultishot) -> ChanId {
        v.id()
    }
}

impl From<ChanIdLocalSenderLocallyMintedMultishot> for ChanIdMultishot {
    fn from(subtype: ChanIdLocalSenderLocallyMintedMultishot) -> (r: Self) {
        ChanIdMultishot::new_unchecked(subtype.0)
    }
}

impl vstd::std_specs::convert::FromSpecImpl<ChanIdLocalSenderLocallyMintedMultishot> for ChanIdMultishot {
    open spec fn obeys_from_spec() -> bool {
        true
    }

    open spec fn from_spec(v: ChanIdLocalSenderLocallyMintedMultishot) -> ChanIdMultishot {
        ChanIdMultishot::wrap(v.id())
    }
}

impl From<ChanIdLocalSenderLocallyMintedMultishot> for ChanIdLocallyMinted {
    fn from(subtype: ChanIdLocalSenderLocallyMintedMultishot) -> (r: Self) {
        ChanIdLocallyMinted::new_unchecked(subtype.0)
    }
}

impl vstd::std_specs::convert::FromSpecImpl<ChanIdLocalSenderLocallyMintedMultishot> for ChanIdLocallyMinted {
    open spec fn obeys_from_spec() -> bool {
        true
    }

    open spec fn from_spec(v: ChanIdLocalSenderLocallyMintedMultishot) -> ChanIdLocallyMinted {
        ChanIdLocallyMinted::wrap(v.id())
    }
}

impl From<ChanIdLocalSenderLocallyMintedMultishot> for ChanIdLocallyMintedMultishot {
    fn from(subtype: ChanIdLocalSenderLocallyMintedMultishot) -> (r: Self) {
        ChanIdLocallyMintedMultishot::new_unchecked(subtype.0)
    }
}

impl vstd::std_specs::convert::FromSpecImpl<ChanIdLocalSenderLocallyMintedMultishot> for ChanIdLocallyMintedMultishot {
    open spec fn obeys_from_spec() -> bool {
        true
    }

    open spec fn from_spec(v: ChanIdLocalSenderLocallyMintedMultishot) -> ChanIdLocallyMintedMultishot {
        ChanIdLocallyMintedMultishot::wrap(v.id())
    }
}

impl From<ChanIdLocalSenderLocallyMintedMultishot> for ChanIdLocalSender {
    fn from(subtype: ChanIdLocalSenderLocallyMintedMultishot) -> (r: Self) {
        ChanIdLocalSender::new_unchecked(subtype.0)
    }
}

impl vstd::std_specs::convert::FromSpecImpl<ChanIdLocalSenderLocallyMintedMultishot> for ChanIdLocalSender {
    open spec fn obeys_from_spec() -> bool {
        true
    }

    open spec fn from_spec(v: ChanIdLocalSenderLocallyMintedMultishot) -> ChanIdLocalSender {
        ChanIdLocalSender::wrap(v.id())
    }
}

impl From<ChanIdLocalSenderLocallyMintedMultishot> for ChanIdLocalSenderMultishot {
    fn from(subtype: ChanIdLocalSenderLocallyMintedMultishot) -> (r: Self) {
        ChanIdLocalSenderMultishot::new_unchecked(subtype.0)
    }
}

impl vstd::std_specs::convert::FromSpecImpl<ChanIdLocalSenderLocallyMintedMultishot> for ChanIdLocalSenderMultishot {
    open spec fn obeys_from_spec() -> bool {
        true
    }

    open spec fn from_spec(v: ChanIdLocalSenderLocallyMintedMultishot) -> ChanIdLocalSenderMultishot {
        ChanIdLocalSenderMultishot::wrap(v.id())
    }
}

impl From<ChanIdLocalSenderLocallyMintedMultishot> for ChanIdLocalSenderLocallyMinted {
    fn from(subtype: ChanIdLocalSenderLocallyMintedMultishot) -> (r: Self) {
        ChanIdLocalSenderLocallyMinted::new_unchecked(subtype.0)
    }
}

impl vstd::std_specs::convert::FromSpecImpl<ChanIdLocalSenderLocallyMintedMultishot> for ChanIdLocalSenderLocallyMinted {
    open spec fn obeys_from_spec() -> bool {
        true
    }

    open spec fn from_spec(v: ChanIdLocalSenderLocallyMintedMultishot) -> ChanIdLocalSenderLocallyMinted {
        ChanIdLocalSenderLocallyMinted::wrap(v.id())
    }
}

/// Newtype wrapper around a channel ID that is sent by the local side, minted by the local side, oneshot.
#[derive(Debug, Copy, Clone, PartialEq, Eq, Hash, Structural)]
pub struct ChanIdLocalSenderLocallyMintedOneshot(ChanId);

impl ChanIdLocalSenderLocallyMintedOneshot {
    /// The wrapped channel ID.
    pub closed spec fn id(self) -> ChanId {
        self.0
    }

    /// The newtype wrapping a channel ID.
    pub closed spec fn wrap(chan_id: ChanId) -> Self {
        ChanIdLocalSenderLocallyMintedOneshot(chan_id)
    }

    /// Construct without checking component constraints.
    pub fn new_unchecked(chan_id: ChanId) -> (r: Self)
        ensures
            r.id() == chan_id,
            r == Self::wrap(chan_id),
    {
        ChanIdLocalSenderLocallyMintedOneshot(chan_id)
    }

    /// Get channel index part.
    pub fn idx(self) -> (r: u64)
        ensures
            r == self.id().idx_part(),
    {
        self.0.idx()
    }
}

impl From<ChanIdLocalSenderLocallyMintedOneshot> for ChanId {
    fn from(subtype: ChanIdLocalSenderLocallyMintedOneshot) -> (r: ChanId) {
        subtype.0
    }
}

impl vstd::std_specs::convert::FromSpecImpl<ChanIdLocalSenderLocallyMintedOneshot> for ChanId {
    open spec fn obeys_from_spec() -> bool {
        true
    }

    open spec fn from_spec(v: ChanIdLocalSenderLocallyMintedOneshot) -> ChanId {
        v.id()
    }
}

impl From<ChanIdLocalSenderLocallyMintedOneshot> for ChanIdOneshot {
    fn from(subtype: ChanIdLocalSenderLocallyMintedOneshot) -> (r: Self) {
        ChanIdOneshot::new_unchecked(subtype.0)
    }
}

impl vstd::std_specs::convert::FromSpecImpl<ChanIdLocalSenderLocallyMintedOneshot> for ChanIdOneshot {
    open spec fn obeys_from_spec() -> bool {
        true
    }

    open spec fn from_spec(v: ChanIdLocalSenderLocallyMintedOneshot) -> ChanIdOneshot {
        ChanIdOneshot::wrap(v.id())
    }
}

impl From<ChanIdLocalSenderLocallyMintedOneshot> for ChanIdLocallyMinted {
    fn from(subtype: ChanIdLocalSenderLocallyMintedOneshot) -> (r: Self) {
        ChanIdLocallyMinted::new_unchecked(subtype.0)
    }
}

impl vstd::std_specs::convert::FromSpecImpl<ChanIdLocalSenderLocallyMintedOneshot> for ChanIdLocallyMinted {
    open spec fn obeys_from_spec() -> bool {
        true
    }

    open spec fn from_spec(v: ChanIdLocalSenderLocallyMintedOneshot) -> ChanIdLocallyMinted {
        ChanIdLocallyMinted::wrap(v.id())
    }
}

impl From<ChanIdLocalSenderLocallyMintedOneshot> for ChanIdLocallyMintedOneshot {
    fn from(subtype: ChanIdLocalSenderLocallyMintedOneshot) -> (r: Self) {
        ChanIdLocallyMintedOneshot::new_unchecked(subtype.0)
    }
}

impl vstd::std_specs::convert::FromSpecImpl<ChanIdLocalSenderLocallyMintedOneshot> for ChanIdLocallyMintedOneshot {
    open spec fn obeys_from_spec() -> bool {
        true
    }

    open spec fn from_spec(v: ChanIdLocalSenderLocallyMintedOneshot) -> ChanIdLocallyMintedOneshot {
        ChanIdLocallyMintedOneshot::wrap(v.id())
    }
}

impl From<ChanIdLocalSenderLocallyMintedOneshot> for ChanIdLocalSender {
    fn from(subtype: ChanIdLocalSenderLocallyMintedOneshot) -> (r: Self) {
        ChanIdLocalSender::new_unchecked(subtype.0)
    }
}

impl vstd::std_specs::convert::FromSpecImpl<ChanIdLocalSenderLocallyMintedOneshot> for ChanIdLocalSender {
    open spec fn obeys_from_spec() -> bool {
        true
    }

    open spec fn from_spec(v: ChanIdLocalSenderLocallyMintedOneshot) -> ChanIdLocalSender {
        ChanIdLocalSender::wrap(v.id())
    }
}

impl From<ChanIdLocalSenderLocallyMintedOneshot> for ChanIdLocalSenderOneshot {
    fn from(subtype: ChanIdLocalSenderLocallyMintedOneshot) -> (r: Self) {
        ChanIdLocalSenderOneshot::new_unchecked(subtype.0)
    }
}

impl vstd::std_specs::convert::FromSpecImpl<ChanIdLocalSenderLocallyMintedOneshot> for ChanIdLocalSenderOneshot {
    open spec fn obeys_from_spec() -> bool {
        true
    }

    open spec fn from_spec(v: ChanIdLocalSenderLocallyMintedOneshot) -> ChanIdLocalSenderOneshot {
        ChanIdLocalSenderOneshot::wrap(v.id())
    }
}

impl From<ChanIdLocalSenderLocallyMintedOneshot> for ChanIdLocalSenderLocallyMinted {
    fn from(subtype: ChanIdLocalSenderLocallyMintedOneshot) -> (r: Self) {
        ChanIdLocalSenderLocallyMinted::new_unchecked(subtype.0)
    }
}

impl vstd::std_specs::convert::FromSpecImpl<ChanIdLocalSenderLocallyMintedOneshot> for ChanIdLocalSenderLocallyMinted {
    open spec fn obeys_from_spec() -> bool {
        true
    }

    open spec fn from_spec(v: ChanIdLocalSenderLocallyMintedOneshot) -> ChanIdLocalSenderLocallyMinted {
        ChanIdLocalSenderLocallyMinted::wrap(v.id())
    }
}

/// Newtype wrapper around a channel ID that is sent by the local side, minted by the remote side.
#[derive(Debug, Copy, Clone, PartialEq, Eq, Hash, Structural)]
pub struct ChanIdLocalSenderRemotelyMinted(ChanId);

impl ChanIdLocalSenderRemotelyMinted {
    /// The wrapped channel ID.
    pub closed spec fn id(self) -> ChanId {
        self.0
    }

    /// The newtype wrapping a channel ID.
    pub closed spec fn wrap(chan_id: ChanId) -> Self {
        ChanIdLocalSenderRemotelyMinted(chan_id)
    }

    /// Construct without checking component constraints.
    pub fn new_unchecked(chan_id: ChanId) -> (r: Self)
        ensures
            r.id() == chan_id,
            r == Self::wrap(chan_id),
    {
        ChanIdLocalSenderRemotelyMinted(chan_id)
    }

    /// Get is-oneshot part.
    pub fn is_oneshot(self) -> (r: bool)
        ensures
            r == self.id().oneshot_bit(),
    {
        self.0.is_oneshot()
    }

    /// Categorize this channel ID by whether it is multishot.
    pub fn sort_by_is_oneshot(self) -> (r: SortByIsOneshot<ChanIdLocalSenderRemotelyMintedMultishot, ChanIdLocalSenderRemotelyMintedOneshot>)
        ensures
            self.id().oneshot_bit() ==> (r matches SortByIsOneshot::Oneshot(c) && c.id() == self.id()),
            !(self.id().oneshot_bit()) ==> (r matches SortByIsOneshot::Multishot(c) && c.id() == self.id()),
    {
        if self.is_oneshot() {
            SortByIsOneshot::Oneshot(ChanIdLocalSenderRemotelyMintedOneshot::new_unchecked(self.0))
        } else {
            SortByIsOneshot::Multishot(ChanIdLocalSenderRemotelyMintedMultishot::new_unchecked(self.0))
        }
    }

    /// Get channel index part.
    pub fn idx(self) -> (r: u64)
        ensures
            r == self.id().idx_part(),
    {
        self.0.idx()
    }
}

impl From<ChanIdLocalSenderRemotelyMinted> for ChanId {
    fn from(subtype: ChanIdLocalSenderRemotelyMinted) -> (r: ChanId) {
        subtype.0
    }
}

impl vstd::std_specs::convert::FromSpecImpl<ChanIdLocalSenderRemotelyMinted> for ChanId {
    open spec fn obeys_from_spec() -> bool {
        true
    }

    open spec fn from_spec(v: ChanIdLocalSenderRemotelyMinted) -> ChanId {
        v.id()
    }
}

impl From<ChanIdLocalSenderRemotelyMinted> for ChanIdRemotelyMinted {
    fn from(subtype: ChanIdLocalSenderRemotelyMinted) -> (r: Self) {
        ChanIdRemotelyMinted::new_unchecked(subtype.0)
    }
}

impl vstd::std_specs::convert::FromSpecImpl<ChanIdLocalSenderRemotelyMinted> for ChanIdRemotelyMinted {
    open spec fn obeys_from_spec() -> bool {
        true
    }

    open spec fn from_spec(v: ChanIdLocalSenderRemotelyMinted) -> ChanIdRemotelyMinted {
        ChanIdRemotelyMinted::wrap(v.id())
    }
}

impl From<ChanIdLocalSenderRemotelyMinted> for ChanIdLocalSender {
    fn from(subtype: ChanIdLocalSenderRemotelyMinted) -> (r: Self) {
        ChanIdLocalSender::new_unchecked(subtype.0)
    }
}

impl vstd::std_specs::convert::FromSpecImpl<ChanIdLocalSenderRemotelyMinted> for ChanIdLocalSender {
    open spec fn obeys_from_spec() -> bool {
        true
    }

    open spec fn from_spec(v: ChanIdLocalSenderRemotelyMinted) -> ChanIdLocalSender {
        ChanIdLocalSender::wrap(v.id())
    }
}

/// Newtype wrapper around a channel ID that is sent by the local side, minted by the remote side, multishot.
#[derive(Debug, Copy, Clone, PartialEq, Eq, Hash, Structural)]
pub struct ChanIdLocalSenderRemotelyMintedMultishot(ChanId);

impl ChanIdLocalSenderRemotelyMintedMultishot {
    /// The wrapped channel ID.
    pub closed spec fn id(self) -> ChanId {
        self.0
    }

    /// The newtype wrapping a channel ID.
    pub closed spec fn wrap(chan_id: ChanId) -> Self {
        ChanIdLocalSenderRemotelyMintedMultishot(chan_id)
    }

    /// Construct without checking component constraints.
    pub fn new_unchecked(chan_id: ChanId) -> (r: Self)
        ensures
            r.id() == chan_id,
            r == Self::wrap(chan_id),
    {
        ChanIdLocalSenderRemotelyMintedMultishot(chan_id)
    }

    /// Get channel index part.
    pub fn idx(self) -> (r: u64)
        ensures
            r == self.id().idx_part(),
    {
        self.0.idx()
    }
}

impl From<ChanIdLocalSenderRemotelyMintedMultishot> for ChanId {
    fn from(subtype: ChanIdLocalSenderRemotelyMintedMultishot) -> (r: ChanId) {
        subtype.0
    }
}

impl vstd::std_specs::convert::FromSpecImpl<ChanIdLocalSenderRemotelyMintedMultishot> for ChanId {
    open spec fn obeys_from_spec() -> bool {
        true
    }

    open spec fn from_spec(v: ChanIdLocalSenderRemotelyMintedMultishot) -> ChanId {
        v.id()
    }
}

impl From<ChanIdLocalSenderRemotelyMintedMultishot> for ChanIdMultishot {
    fn from(subtype: ChanIdLocalSenderRemotelyMintedMultishot) -> (r: Self) {
        ChanIdMultishot::new_unchecked(subtype.0)
    }
}

impl vstd::std_specs::convert::FromSpecImpl<ChanIdLocalSenderRemotelyMintedMultishot> for ChanIdMultishot {
    open spec fn obeys_from_spec() -> bool {
        true
    }

    open spec fn from_spec(v: ChanIdLocalSenderRemotelyMintedMultishot) -> ChanIdMultishot {
        ChanIdMultishot::wrap(v.id())
    }
}

impl From<ChanIdLocalSenderRemotelyMintedMultishot> for ChanIdRemotelyMinted {
    fn from(subtype: ChanIdLocalSenderRemotelyMintedMultishot) -> (r: Self) {
        ChanIdRemotelyMinted::new_unchecked(subtype.0)
    }
}

impl vstd::std_specs::convert::FromSpecImpl<ChanIdLocalSenderRemotelyMintedMultishot> for ChanIdRemotelyMinted {
    open spec fn obeys_from_spec() -> bool {
        true
    }

    open spec fn from_spec(v: ChanIdLocalSenderRemotelyMintedMultishot) -> ChanIdRemotelyMinted {
        ChanIdRemotelyMinted::wrap(v.id())
    }
}

impl From<ChanIdLocalSenderRemotelyMintedMultishot> for ChanIdRemotelyMintedMultishot {
    fn from(subtype: ChanIdLocalSenderRemotelyMintedMultishot) -> (r: Self) {
        ChanIdRemotelyMintedMultishot::new_unchecked(subtype.0)
    }
}

impl vstd::std_specs::convert::FromSpecImpl<ChanIdLocalSenderRemotelyMintedMultishot> for ChanIdRemotelyMintedMultishot {
    open spec fn obeys_from_spec() -> bool {
        true
    }

    open spec fn from_spec(v: ChanIdLocalSenderRemotelyMintedMultishot) -> ChanIdRemotelyMintedMultishot {
        ChanIdRemotelyMintedMultishot::wrap(v.id())
    }
}

impl From<ChanIdLocalSenderRemotelyMintedMultishot> for ChanIdLocalSender {
    fn from(subtype: ChanIdLocalSenderRemotelyMintedMultishot) -> (r: Self) {
        ChanIdLocalSender::new_unchecked(subtype.0)
    }
}

impl vstd::std_specs::convert::FromSpecImpl<ChanIdLocalSenderRemotelyMintedMultishot> for ChanIdLocalSender {
    open spec fn obeys_from_spec() -> bool {
        true
    }

    open spec fn from_spec(v: ChanIdLocalSenderRemotelyMintedMultishot) -> ChanIdLocalSender {
        ChanIdLocalSender::wrap(v.id())
    }
}

impl From<ChanIdLocalSenderRemotelyMintedMultishot> for ChanIdLocalSenderMultishot {
    fn from(subtype: ChanIdLocalSenderRemotelyMintedMultishot) -> (r: Self) {
        ChanIdLocalSenderMultishot::new_unchecked(subtype.0)
    }
}

impl vstd::std_specs::convert::FromSpecImpl<ChanIdLocalSenderRemotelyMintedMultishot> for ChanIdLocalSenderMultishot {
    open spec fn obeys_from_spec() -> bool {
        true
    }

    open spec fn from_spec(v: ChanIdLocalSenderRemotelyMintedMultishot) -> ChanIdLocalSenderMultishot {
        ChanIdLocalSenderMultishot::wrap(v.id())
    }
}

impl From<ChanIdLocalSenderRemotelyMintedMultishot> for ChanIdLocalSenderRemotelyMinted {
    fn from(subtype: ChanIdLocalSenderRemotelyMintedMultishot) -> (r: Self) {
        ChanIdLocalSenderRemotelyMinted::new_unchecked(subtype.0)
    }
}

impl vstd::std_specs::convert::FromSpecImpl<ChanIdLocalSenderRemotelyMintedMultishot> for ChanIdLocalSenderRemotelyMinted {
    open spec fn obeys_from_spec() -> bool {
        true
    }

    open spec fn from_spec(v: ChanIdLocalSenderRemotelyMintedMultishot) -> ChanIdLocalSenderRemotelyMinted {
        ChanIdLocalSenderRemotelyMinted::wrap(v.id())
    }
}

/// Newtype wrapper around a channel ID that is sent by the local side, minted by the remote side, oneshot.
#[derive(Debug, Copy, Clone, PartialEq, Eq, Hash, Structural)]
pub struct ChanIdLocalSenderRemotelyMintedOneshot(ChanId);

impl ChanIdLocalSenderRemotelyMintedOneshot {
    /// The wrapped channel ID.
    pub closed spec fn id(self) -> ChanId {
        self.0
    }

    /// The newtype wrapping a channel ID.
    pub closed spec fn wrap(chan_id: ChanId) -> Self {
        ChanIdLocalSenderRemotelyMintedOneshot(chan_id)
    }

    /// Construct without checking component constraints.
    pub fn new_unchecked(chan_id: ChanId) -> (r: Self)
        ensures
            r.id() == chan_id,
            r == Self::wrap(chan_id),
    {
        ChanIdLocalSenderRemotelyMintedOneshot(chan_id)
    }

    /// Get channel index part.
    pub fn idx(self) -> (r: u64)
        ensures
            r == self.id().idx_part(),
    {
        self.0.idx()
    }
}

impl From<ChanIdLocalSenderRemotelyMintedOneshot> for ChanId {
    fn from(subtype: ChanIdLocalSenderRemotelyMintedOneshot) -> (r: ChanId) {
        subtype.0
    }
}

impl vstd::std_specs::convert::FromSpecImpl<ChanIdLocalSenderRemotelyMintedOneshot> for ChanId {
    open spec fn obeys_from_spec() -> bool {
        true
    }

    open spec fn from_spec(v: ChanIdLocalSenderRemotelyMintedOneshot) -> ChanId {
        v.id()
    }
}

impl From<ChanIdLocalSenderRemotelyMintedOneshot> for ChanIdOneshot {
    fn from(subtype: ChanIdLocalSenderRemotelyMintedOneshot) -> (r: Self) {
        ChanIdOneshot::new_unchecked(subtype.0)
    }
}

impl vstd::std_specs::convert::FromSpecImpl<ChanIdLocalSenderRemotelyMintedOneshot> for ChanIdOneshot {
    open spec fn obeys_from_spec() -> bool {
        true
    }

    open spec fn from_spec(v: ChanIdLocalSenderRemotelyMintedOneshot) -> ChanIdOneshot {
        ChanIdOneshot::wrap(v.id())
    }
}

impl From<ChanIdLocalSenderRemotelyMintedOneshot> for ChanIdRemotelyMinted {
    fn from(subtype: ChanIdLocalSenderRemotelyMintedOneshot) -> (r: Self) {
        ChanIdRemotelyMinted::new_unchecked(subtype.0)
    }
}

impl vstd::std_specs::convert::FromSpecImpl<ChanIdLocalSenderRemotelyMintedOneshot> for ChanIdRemotelyMinted {
    open spec fn obeys_from_spec() -> bool {
        true
    }

    open spec fn from_spec(v: ChanIdLocalSenderRemotelyMintedOneshot) -> ChanIdRemotelyMinted {
        ChanIdRemotelyMinted::wrap(v.id())
    }
}

impl From<ChanIdLocalSenderRemotelyMintedOneshot> for ChanIdRemotelyMintedOneshot {
    fn from(subtype: ChanIdLocalSenderRemotelyMintedOneshot) -> (r: Self) {
        ChanIdRemotelyMintedOneshot::new_unchecked(subtype.0)
    }
}

impl vstd::std_specs::convert::FromSpecImpl<ChanIdLocalSenderRemotelyMintedOneshot> for ChanIdRemotelyMintedOneshot {
    open spec fn obeys_from_spec() -> bool {
        true
    }

    open spec fn from_spec(v: ChanIdLocalSenderRemotelyMintedOneshot) -> ChanIdRemotelyMintedOneshot {
        ChanIdRemotelyMintedOneshot::wrap(v.id())
    }
}

impl From<ChanIdLocalSenderRemotelyMintedOneshot> for ChanIdLocalSender {
    fn from(subtype: ChanIdLocalSenderRemotelyMintedOneshot) -> (r: Self) {
        ChanIdLocalSender::new_unchecked(subtype.0)
    }
}

impl vstd::std_specs::convert::FromSpecImpl<ChanIdLocalSenderRemotelyMintedOneshot> for ChanIdLocalSender {
    open spec fn obeys_from_spec() -> bool {
        true
    }

    open spec fn from_spec(v: ChanIdLocalSenderRemotelyMintedOneshot) -> ChanIdLocalSender {
        ChanIdLocalSender::wrap(v.id())
    }
}

impl From<ChanIdLocalSenderRemotelyMintedOneshot> for ChanIdLocalSenderOneshot {
    fn from(subtype: ChanIdLocalSenderRemotelyMintedOneshot) -> (r: Self) {
        ChanIdLocalSenderOneshot::new_unchecked(subtype.0)
    }
}

impl vstd::std_specs::convert::FromSpecImpl<ChanIdLocalSenderRemotelyMintedOneshot> for ChanIdLocalSenderOneshot {
    open spec fn obeys_from_spec() -> bool {
        true
    }

    open spec fn from_spec(v: ChanIdLocalSenderRemotelyMintedOneshot) -> ChanIdLocalSenderOneshot {
        ChanIdLocalSenderOneshot::wrap(v.id())
    }
}

impl From<ChanIdLocalSenderRemotelyMintedOneshot> for ChanIdLocalSenderRemotelyMinted {
    fn from(subtype: ChanIdLocalSenderRemotelyMintedOneshot) -> (r: Self) {
        ChanIdLocalSenderRemotelyMinted::new_unchecked(subtype.0)
    }
}

impl vstd::std_specs::convert::FromSpecImpl<ChanIdLocalSenderRemotelyMintedOneshot> for ChanIdLocalSenderRemotelyMinted {
    open spec fn obeys_from_spec() -> bool {
        true
    }

    open spec fn from_spec(v: ChanIdLocalSenderRemotelyMintedOneshot) -> ChanIdLocalSenderRemotelyMinted {
        ChanIdLocalSenderRemotelyMinted::wrap(v.id())
    }
}

/// Newtype wrapper around a channel ID that is received by the local side.
#[derive(Debug, Copy, Clone, PartialEq, Eq, Hash, Structural)]
pub struct ChanIdLocalReceiver(ChanId);

impl ChanIdLocalReceiver {
    /// The wrapped channel ID.
    pub closed spec fn id(self) -> ChanId {
        self.0
    }

    /// The newtype wrapping a channel ID.
    pub closed spec fn wrap(chan_id: ChanId) -> Self {
        ChanIdLocalReceiver(chan_id)
    }

    /// Construct without checking component constraints.
    pub fn new_unchecked(chan_id: ChanId) -> (r: Self)
        ensures
            r.id() == chan_id,
            r == Self::wrap(chan_id),
    {
        ChanIdLocalReceiver(chan_id)
    }

    /// Get minted-by part.
    pub fn minted_by(self) -> (r: Side)
        ensures
            r.0 == self.id().creator_bit(),
    {
        self.0.minted_by()
    }

    /// Categorize this channel ID by which side minted it relative to the local side.
    pub fn sort_by_minted_by(self, side: Side) -> (r: SortByMintedBy<ChanIdLocalReceiverLocallyMinted, ChanIdLocalReceiverRemotelyMinted>)
        ensures
            side.0 == self.id().creator_bit() ==> (r matches SortByMintedBy::LocallyMinted(c) && c.id() == self.id()),
            !(side.0 == self.id().creator_bit()) ==> (r matches SortByMintedBy::RemotelyMinted(c) && c.id() == self.id()),
    {
        if self.minted_by() == side {
            SortByMintedBy::LocallyMinted(ChanIdLocalReceiverLocallyMinted::new_unchecked(self.0))
        } else {
            SortByMintedBy::RemotelyMinted(ChanIdLocalReceiverRemotelyMinted::new_unchecked(self.0))
        }
    }

    /// Get is-oneshot part.
    pub fn is_oneshot(self) -> (r: bool)
        ensures
            r == self.id().oneshot_bit(),
    {
        self.0.is_oneshot()
    }

    /// Categorize this channel ID by whether it is multishot.
    pub fn sort_by_is_oneshot(self) -> (r: SortByIsOneshot<ChanIdLocalReceiverMultishot, ChanIdLocalReceiverOneshot>)
        ensures
            self.id().oneshot_bit() ==> (r matches SortByIsOneshot::Oneshot(c) && c.id() == self.id()),
            !(self.id().oneshot_bit()) ==> (r matches SortByIsOneshot::Multishot(c) && c.id() == self.id()),
    {
        if self.is_oneshot() {
            SortByIsOneshot::Oneshot(ChanIdLocalReceiverOneshot::new_unchecked(self.0))
        } else {
            SortByIsOneshot::Multishot(ChanIdLocalReceiverMultishot::new_unchecked(self.0))
        }
    }

    /// Get channel index part.
    pub fn idx(self) -> (r: u64)
        ensures
            r == self.id().idx_part(),
    {
        self.0.idx()
    }
}

impl From<ChanIdLocalReceiver> for ChanId {
    fn from(subtype: ChanIdLocalReceiver) -> (r: ChanId) {
        subtype.0
    }
}

impl vstd::std_specs::convert::FromSpecImpl<ChanIdLocalReceiver> for ChanId {
    open spec fn obeys_from_spec() -> bool {
        true
    }

    open spec fn from_spec(v: ChanIdLocalReceiver) -> ChanId {
        v.id()
    }
}

/// Newtype wrapper around a channel ID that is received by the local side, multishot.
#[derive(Debug, Copy, Clone, PartialEq, Eq, Hash, Structural)]
pub struct ChanIdLocalReceiverMultishot(ChanId);

impl ChanIdLocalReceiverMultishot {
    /// The wrapped channel ID.
    pub closed spec fn id(self) -> ChanId {
        self.0
    }

    /// The newtype wrapping a channel ID.
    pub closed spec fn wrap(chan_id: ChanId) -> Self {
        ChanIdLocalReceiverMultishot(chan_id)
    }

    /// Construct without checking component constraints.
    pub fn new_unchecked(chan_id: ChanId) -> (r: Self)
        ensures
            r.id() == chan_id,
            r == Self::wrap(chan_id),
    {
        ChanIdLocalReceiverMultishot(chan_id)
    }

    /// Get minted-by part.
    pub fn minted_by(self) -> (r: Side)
        ensures
            r.0 == self.id().creator_bit(),
    {
        self.0.minted_by()
    }

    /// Categorize this channel ID by which side minted it relative to the local side.
    pub fn sort_by_minted_by(self, side: Side) -> (r: SortByMintedBy<ChanIdLocalReceiverLocallyMintedMultishot, ChanIdLocalReceiverRemotelyMintedMultishot>)
        ensures
            side.0 == self.id().creator_bit() ==> (r matches SortByMintedBy::LocallyMinted(c) && c.id() == self.id()),
            !(side.0 == self.id().creator_bit()) ==> (r matches SortByMintedBy::RemotelyMinted(c) && c.id() == self.id()),
    {
        if self.minted_by() == side {
            SortByMintedBy::LocallyMinted(ChanIdLocalReceiverLocallyMintedMultishot::new_unchecked(self.0))
        } else {
            SortByMintedBy::RemotelyMinted(ChanIdLocalReceiverRemotelyMintedMultishot::new_unchecked(self.0))
        }
    }

    /// Get channel index part.
    pub fn idx(self) -> (r: u64)
        ensures
            r == self.id().idx_part(),
    {
        self.0.idx()
    }
}

impl From<ChanIdLocalReceiverMultishot> for ChanId {
    fn from(subtype: ChanIdLocalReceiverMultishot) -> (r: ChanId) {
        subtype.0
    }
}

impl vstd::std_specs::convert::FromSpecImpl<ChanIdLocalReceiverMultishot> for ChanId {
    open spec fn obeys_from_spec() -> bool {
        true
    }

    open spec fn from_spec(v: ChanIdLocalReceiverMultishot) -> ChanId {
        v.id()
    }
}

impl From<ChanIdLocalReceiverMultishot> for ChanIdMultishot {
    fn from(subtype: ChanIdLocalReceiverMultishot) -> (r: Self) {
        ChanIdMultishot::new_unchecked(subtype.0)
    }
}

impl vstd::std_specs::convert::FromSpecImpl<ChanIdLocalReceiverMultishot> for ChanIdMultishot {
    open spec fn obeys_from_spec() -> bool {
        true
    }

    open spec fn from_spec(v: ChanIdLocalReceiverMultishot) -> ChanIdMultishot {
        ChanIdMultishot::wrap(v.id())
    }
}

impl From<ChanIdLocalReceiverMultishot> for ChanIdLocalReceiver {
    fn from(subtype: ChanIdLocalReceiverMultishot) -> (r: Self) {
        ChanIdLocalReceiver::new_unchecked(subtype.0)
    }
}

impl vstd::std_specs::convert::FromSpecImpl<ChanIdLocalReceiverMultishot> for ChanIdLocalReceiver {
    open spec fn obeys_from_spec() -> bool {
        true
    }

    open spec fn from_spec(v: ChanIdLocalReceiverMultishot) -> ChanIdLocalReceiver {
        ChanIdLocalReceiver::wrap(v.id())
    }
}

/// Newtype wrapper around a channel ID that is received by the local side, oneshot.
#[derive(Debug, Copy, Clone, PartialEq, Eq, Hash, Structural)]
pub struct ChanIdLocalReceiverOneshot(ChanId);

impl ChanIdLocalReceiverOneshot {
    /// The wrapped channel ID.
    pub closed spec fn id(self) -> ChanId {
        self.0
    }

    /// The newtype wrapping a channel ID.
    pub closed spec fn wrap(chan_id: ChanId) -> Self {
        ChanIdLocalReceiverOneshot(chan_id)
    }

    /// Construct without checking component constraints.
    pub fn new_unchecked(chan_id: ChanId) -> (r: Self)
        ensures
            r.id() == chan_id,
            r == Self::wrap(chan_id),
    {
        ChanIdLocalReceiverOneshot(chan_id)
    }

    /// Get minted-by part.
    pub fn minted_by(self) -> (r: Side)
        ensures
            r.0 == self.id().creator_bit(),
    {
        self.0.minted_by()
    }

    /// Categorize this channel ID by which side minted it relative to the local side.
    pub fn sort_by_minted_by(self, side: Side) -> (r: SortByMintedBy<ChanIdLocalReceiverLocallyMintedOneshot, ChanIdLocalReceiverRemotelyMintedOneshot>)
        ensures
            side.0 == self.id().creator_bit() ==> (r matches SortByMintedBy::LocallyMinted(c) && c.id() == self.id()),
            !(side.0 == self.id().creator_bit()) ==> (r matches SortByMintedBy::RemotelyMinted(c) && c.id() == self.id()),
    {
        if self.minted_by() == side {
            SortByMintedBy::LocallyMinted(ChanIdLocalReceiverLocallyMintedOneshot::new_unchecked(self.0))
        } else {
            SortByMintedBy::RemotelyMinted(ChanIdLocalReceiverRemotelyMintedOneshot::new_unchecked(self.0))
        }
    }

    /// Get channel index part.
    pub fn idx(self) -> (r: u64)
        ensures
            r == self.id().idx_part(),
    {
        self.0.idx()
    }
}

impl From<ChanIdLocalReceiverOneshot> for ChanId {
    fn from(subtype: ChanIdLocalReceiverOneshot) -> (r: ChanId) {
        subtype.0
    }
}

impl vstd::std_specs::convert::FromSpecImpl<ChanIdLocalReceiverOneshot> for ChanId {
    open spec fn obeys_from_spec() -> bool {
        true
    }

    open spec fn from_spec(v: ChanIdLocalReceiverOneshot) -> ChanId {
        v.id()
    }
}

impl From<ChanIdLocalReceiverOneshot> for ChanIdOneshot {
    fn from(subtype: ChanIdLocalReceiverOneshot) -> (r: Self) {
        ChanIdOneshot::new_unchecked(subtype.0)
    }
}

impl vstd::std_specs::convert::FromSpecImpl<ChanIdLocalReceiverOneshot> for ChanIdOneshot {
    open spec fn obeys_from_spec() -> bool {
        true
    }

    open spec fn from_spec(v: ChanIdLocalReceiverOneshot) -> ChanIdOneshot {
        ChanIdOneshot::wrap(v.id())
    }
}

impl From<ChanIdLocalReceiverOneshot> for ChanIdLocalReceiver {
    fn from(subtype: ChanIdLocalReceiverOneshot) -> (r: Self) {
        ChanIdLocalReceiver::new_unchecked(subtype.0)
    }
}

impl vstd::std_specs::convert::FromSpecImpl<ChanIdLocalReceiverOneshot> for ChanIdLocalReceiver {
    open spec fn obeys_from_spec() -> bool {
        true
    }

    open spec fn from_spec(v: ChanIdLocalReceiverOneshot) -> ChanIdLocalReceiver {
        ChanIdLocalReceiver::wrap(v.id())
    }
}

/// Newtype wrapper around a channel ID that is received by the local side, minted by the local side.
#[derive(Debug, Copy, Clone, PartialEq, Eq, Hash, Structural)]
pub struct ChanIdLocalReceiverLocallyMinted(ChanId);

impl ChanIdLocalReceiverLocallyMinted {
    /// The wrapped channel ID.
    pub closed spec fn id(self) -> ChanId {
        self.0
    }

    /// The newtype wrapping a channel ID.
    pub closed spec fn wrap(chan_id: ChanId) -> Self {
        ChanIdLocalReceiverLocallyMinted(chan_id)
    }

    /// Construct without checking component constraints.
    pub fn new_unchecked(chan_id: ChanId) -> (r: Self)
        ensures
            r.id() == chan_id,
            r == Self::wrap(chan_id),
    {
        ChanIdLocalReceiverLocallyMinted(chan_id)
    }

    /// Get is-oneshot part.
    pub fn is_oneshot(self) -> (r: bool)
        ensures
            r == self.id().oneshot_bit(),
    {
        self.0.is_oneshot()
    }

    /// Categorize this channel ID by whether it is multishot.
    pub fn sort_by_is_oneshot(self) -> (r: SortByIsOneshot<ChanIdLocalReceiverLocallyMintedMultishot, ChanIdLocalReceiverLocallyMintedOneshot>)
        ensures
            self.id().oneshot_bit() ==> (r matches SortByIsOneshot::Oneshot(c) && c.id() == self.id()),
            !(self.id().oneshot_bit()) ==> (r matches SortByIsOneshot::Multishot(c) && c.id() == self.id()),
    {
        if self.is_oneshot() {
            SortByIsOneshot::Oneshot(ChanIdLocalReceiverLocallyMintedOneshot::new_unchecked(self.0))
        } else {
            SortByIsOneshot::Multishot(ChanIdLocalReceiverLocallyMintedMultishot::new_unchecked(self.0))
        }
    }

    /// Get channel index part.
    pub fn idx(self) -> (r: u64)
        ensures
            r == self.id().idx_part(),
    {
        self.0.idx()
    }
}

impl From<ChanIdLocalReceiverLocallyMinted> for ChanId {
    fn from(subtype: ChanIdLocalReceiverLocallyMinted) -> (r: ChanId) {
        subtype.0
    }
}

impl vstd::std_specs::convert::FromSpecImpl<ChanIdLocalReceiverLocallyMinted> for ChanId {
    open spec fn obeys_from_spec() -> bool {
        true
    }

    open spec fn from_spec(v: ChanIdLocalReceiverLocallyMinted) -> ChanId {
        v.id()
    }
}

impl From<ChanIdLocalReceiverLocallyMinted> for ChanIdLocallyMinted {
    fn from(subtype: ChanIdLocalReceiverLocallyMinted) -> (r: Self) {
        ChanIdLocallyMinted::new_unchecked(subtype.0)
    }
}

impl vstd::std_specs::convert::FromSpecImpl<ChanIdLocalReceiverLocallyMinted> for ChanIdLocallyMinted {
    open spec fn obeys_from_spec() -> bool {
        true
    }

    open spec fn from_spec(v: ChanIdLocalReceiverLocallyMinted) -> ChanIdLocallyMinted {
        ChanIdLocallyMinted::wrap(v.id())
    }
}

impl From<ChanIdLocalReceiverLocallyMinted> for ChanIdLocalReceiver {
    fn from(subtype: ChanIdLocalReceiverLocallyMinted) -> (r: Self) {
        ChanIdLocalReceiver::new_unchecked(subtype.0)
    }
}

impl vstd::std_specs::convert::FromSpecImpl<ChanIdLocalReceiverLocallyMinted> for ChanIdLocalReceiver {
    open spec fn obeys_from_spec() -> bool {
        true
    }

    open spec fn from_spec(v: ChanIdLocalReceiverLocallyMinted) -> ChanIdLocalReceiver {
        ChanIdLocalReceiver::wrap(v.id())
    }
}

/// Newtype wrapper around a channel ID that is received by the local side, minted by the local side, multishot.
#[derive(Debug, Copy, Clone, PartialEq, Eq, Hash, Structural)]
pub struct ChanIdLocalReceiverLocallyMintedMultishot(ChanId);

impl ChanIdLocalReceiverLocallyMintedMultishot {
    /// The wrapped channel ID.
    pub closed spec fn id(self) -> ChanId {
        self.0
    }

    /// The newtype wrapping a channel ID.
    pub closed spec fn wrap(chan_id: ChanId) -> Self {
        ChanIdLocalReceiverLocallyMintedMultishot(chan_id)
    }

    /// Construct without checking component constraints.
    pub fn new_unchecked(chan_id: ChanId) -> (r: Self)
        ensures
            r.id() == chan_id,
            r == Self::wrap(chan_id),
    {
        ChanIdLocalReceiverLocallyMintedMultishot(chan_id)
    }

    /// Get channel index part.
    pub fn idx(self) -> (r: u64)
        ensures
            r == self.id().idx_part(),
    {
        self.0.idx()
    }
}

impl From<ChanIdLocalReceiverLocallyMintedMultishot> for ChanId {
    fn from(subtype: ChanIdLocalReceiverLocallyMintedMultishot) -> (r: ChanId) {
        subtype.0
    }
}

impl vstd::std_specs::convert::FromSpecImpl<ChanIdLocalReceiverLocallyMintedMultishot> for ChanId {
    open spec fn obeys_from_spec() -> bool {
        true
    }

    open spec fn from_spec(v: ChanIdLocalReceiverLocallyMintedMultishot) -> ChanId {
        v.id()
    }
}

impl From<ChanIdLocalReceiverLocallyMintedMultishot> for ChanIdMultishot {
    fn from(subtype: ChanIdLocalReceiverLocallyMintedMultishot) -> (r: Self) {
        ChanIdMultishot::new_unchecked(subtype.0)
    }
}

impl vstd::std_specs::convert::FromSpecImpl<ChanIdLocalReceiverLocallyMintedMultishot> for ChanIdMultishot {
    open spec fn obeys_from_spec() -> bool {
        true
    }

    open spec fn from_spec(v: ChanIdLocalReceiverLocallyMintedMultishot) -> ChanIdMultishot {
        ChanIdMultishot::wrap(v.id())
    }
}

impl From<ChanIdLocalReceiverLocallyMintedMultishot> for ChanIdLocallyMinted {
    fn from(subtype: ChanIdLocalReceiverLocallyMintedMultishot) -> (r: Self) {
        ChanIdLocallyMinted::new_unchecked(subtype.0)
    }
}

impl vstd::std_specs::convert::FromSpecImpl<ChanIdLocalReceiverLocallyMintedMultishot> for ChanIdLocallyMinted {
    open spec fn obeys_from_spec() -> bool {
        true
    }

    open spec fn from_spec(v: ChanIdLocalReceiverLocallyMintedMultishot) -> ChanIdLocallyMinted {
        ChanIdLocallyMinted::wrap(v.id())
    }
}

impl From<ChanIdLocalReceiverLocallyMintedMultishot> for ChanIdLocallyMintedMultishot {
    fn from(subtype: ChanIdLocalReceiverLocallyMintedMultishot) -> (r: Self) {
        ChanIdLocallyMintedMultishot::new_unchecked(subtype.0)
    }
}

impl vstd::std_specs::convert::FromSpecImpl<ChanIdLocalReceiverLocallyMintedMultishot> for ChanIdLocallyMintedMultishot {
    open spec fn obeys_from_spec() -> bool {
        true
    }

    open spec fn from_spec(v: ChanIdLocalReceiverLocallyMintedMultishot) -> ChanIdLocallyMintedMultishot {
        ChanIdLocallyMintedMultishot::wrap(v.id())
    }
}

impl From<ChanIdLocalReceiverLocallyMintedMultishot> for ChanIdLocalReceiver {
    fn from(subtype: ChanIdLocalReceiverLocallyMintedMultishot) -> (r: Self) {
        ChanIdLocalReceiver::new_unchecked(subtype.0)
    }
}

impl vstd::std_specs::convert::FromSpecImpl<ChanIdLocalReceiverLocallyMintedMultishot> for ChanIdLocalReceiver {
    open spec fn obeys_from_spec() -> bool {
        true
    }

    open spec fn from_spec(v: ChanIdLocalReceiverLocallyMintedMultishot) -> ChanIdLocalReceiver {
        ChanIdLocalReceiver::wrap(v.id())
    }
}

impl From<ChanIdLocalReceiverLocallyMintedMultishot> for ChanIdLocalReceiverMultishot {
    fn from(subtype: ChanIdLocalReceiverLocallyMintedMultishot) -> (r: Self) {
        ChanIdLocalReceiverMultishot::new_unchecked(subtype.0)
    }
}

impl vstd::std_specs::convert::FromSpecImpl<ChanIdLocalReceiverLocallyMintedMultishot> for ChanIdLocalReceiverMultishot {
    open spec fn obeys_from_spec() -> bool {
        true
    }

    open spec fn from_spec(v: ChanIdLocalReceiverLocallyMintedMultishot) -> ChanIdLocalReceiverMultishot {
        ChanIdLocalReceiverMultishot::wrap(v.id())
    }
}

impl From<ChanIdLocalReceiverLocallyMintedMultishot> for ChanIdLocalReceiverLocallyMinted {
    fn from(subtype: ChanIdLocalReceiverLocallyMintedMultishot) -> (r: Self) {
        ChanIdLocalReceiverLocallyMinted::new_unchecked(subtype.0)
    }
}

impl vstd::std_specs::convert::FromSpecImpl<ChanIdLocalReceiverLocallyMintedMultishot> for ChanIdLocalReceiverLocallyMinted {
    open spec fn obeys_from_spec() -> bool {
        true
    }

    open spec fn from_spec(v: ChanIdLocalReceiverLocallyMintedMultishot) -> ChanIdLocalReceiverLocallyMinted {
        ChanIdLocalReceiverLocallyMinted::wrap(v.id())
    }
}

/// Newtype wrapper around a channel ID that is received by the local side, minted by the local side, oneshot.
#[derive(Debug, Copy, Clone, PartialEq, Eq, Hash, Structural)]
pub struct ChanIdLocalReceiverLocallyMintedOneshot(ChanId);

impl ChanIdLocalReceiverLocallyMintedOneshot {
    /// The wrapped channel ID.
    pub closed spec fn id(self) -> ChanId {
        self.0
    }

    /// The newtype wrapping a channel ID.
    pub closed spec fn wrap(chan_id: ChanId) -> Self {
        ChanIdLocalReceiverLocallyMintedOneshot(chan_id)
    }

    /// Construct without checking component constraints.
    pub fn new_unchecked(chan_id: ChanId) -> (r: Self)
        ensures
            r.id() == chan_id,
            r == Self::wrap(chan_id),
    {
        ChanIdLocalReceiverLocallyMintedOneshot(chan_id)
    }

    /// Get channel index part.
    pub fn idx(self) -> (r: u64)
        ensures
            r == self.id().idx_part(),
    {
        self.0.idx()
    }
}

impl From<ChanIdLocalReceiverLocallyMintedOneshot> for ChanId {
    fn from(subtype: ChanIdLocalReceiverLocallyMintedOneshot) -> (r: ChanId) {
        subtype.0
    }
}

impl vstd::std_specs::convert::FromSpecImpl<ChanIdLocalReceiverLocallyMintedOneshot> for ChanId {
    open spec fn obeys_from_spec() -> bool {
        true
    }

    open spec fn from_spec(v: ChanIdLocalReceiverLocallyMintedOneshot) -> ChanId {
        v.id()
    }
}

impl From<ChanIdLocalReceiverLocallyMintedOneshot> for ChanIdOneshot {
    fn from(subtype: ChanIdLocalReceiverLocallyMintedOneshot) -> (r: Self) {
        ChanIdOneshot::new_unchecked(subtype.0)
    }
}

impl vstd::std_specs::convert::FromSpecImpl<ChanIdLocalReceiverLocallyMintedOneshot> for ChanIdOneshot {
    open spec fn obeys_from_spec() -> bool {
        true
    }

    open spec fn from_spec(v: ChanIdLocalReceiverLocallyMintedOneshot) -> ChanIdOneshot {
        ChanIdOneshot::wrap(v.id())
    }
}

impl From<ChanIdLocalReceiverLocallyMintedOneshot> for ChanIdLocallyMinted {
    fn from(subtype: ChanIdLocalReceiverLocallyMintedOneshot) -> (r: Self) {
        ChanIdLocallyMinted::new_unchecked(subtype.0)
    }
}

impl vstd::std_specs::convert::FromSpecImpl<ChanIdLocalReceiverLocallyMintedOneshot> for ChanIdLocallyMinted {
    open spec fn obeys_from_spec() -> bool {
        true
    }

    open spec fn from_spec(v: ChanIdLocalReceiverLocallyMintedOneshot) -> ChanIdLocallyMinted {
        ChanIdLocallyMinted::wrap(v.id())
    }
}

impl From<ChanIdLocalReceiverLocallyMintedOneshot> for ChanIdLocallyMintedOneshot {
    fn from(subtype: ChanIdLocalReceiverLocallyMintedOneshot) -> (r: Self) {
        ChanIdLocallyMintedOneshot::new_unchecked(subtype.0)
    }
}

impl vstd::std_specs::convert::FromSpecImpl<ChanIdLocalReceiverLocallyMintedOneshot> for ChanIdLocallyMintedOneshot {
    open spec fn obeys_from_spec() -> bool {
        true
    }

    open spec fn from_spec(v: ChanIdLocalReceiverLocallyMintedOneshot) -> ChanIdLocallyMintedOneshot {
        ChanIdLocallyMintedOneshot::wrap(v.id())
    }
}

impl From<ChanIdLocalReceiverLocallyMintedOneshot> for ChanIdLocalReceiver {
    fn from(subtype: ChanIdLocalReceiverLocallyMintedOneshot) -> (r: Self) {
        ChanIdLocalReceiver::new_unchecked(subtype.0)
    }
}

impl vstd::std_specs::convert::FromSpecImpl<ChanIdLocalReceiverLocallyMintedOneshot> for ChanIdLocalReceiver {
    open spec fn obeys_from_spec() -> bool {
        true
    }

    open spec fn from_spec(v: ChanIdLocalReceiverLocallyMintedOneshot) -> ChanIdLocalReceiver {
        ChanIdLocalReceiver::wrap(v.id())
    }
}

impl From<ChanIdLocalReceiverLocallyMintedOneshot> for ChanIdLocalReceiverOneshot {
    fn from(subtype: ChanIdLocalReceiverLocallyMintedOneshot) -> (r: Self) {
        ChanIdLocalReceiverOneshot::new_unchecked(subtype.0)
    }
}

impl vstd::std_specs::convert::FromSpecImpl<ChanIdLocalReceiverLocallyMintedOneshot> for ChanIdLocalReceiverOneshot {
    open spec fn obeys_from_spec() -> bool {
        true
    }

    open spec fn from_spec(v: ChanIdLocalReceiverLocallyMintedOneshot) -> ChanIdLocalReceiverOneshot {
        ChanIdLocalReceiverOneshot::wrap(v.id())
    }
}

impl From<ChanIdLocalReceiverLocallyMintedOneshot> for ChanIdLocalReceiverLocallyMinted {
    fn from(subtype: ChanIdLocalReceiverLocallyMintedOneshot) -> (r: Self) {
        ChanIdLocalReceiverLocallyMinted::new_unchecked(subtype.0)
    }
}

impl vstd::std_specs::convert::FromSpecImpl<ChanIdLocalReceiverLocallyMintedOneshot> for ChanIdLocalReceiverLocallyMinted {
    open spec fn obeys_from_spec() -> bool {
        true
    }

    open spec fn from_spec(v: ChanIdLocalReceiverLocallyMintedOneshot) -> ChanIdLocalReceiverLocallyMinted {
        ChanIdLocalReceiverLocallyMinted::wrap(v.id())
    }
}

/// Newtype wrapper around a channel ID that is received by the local side, minted by the remote side.
#[derive(Debug, Copy, Clone, PartialEq, Eq, Hash, Structural)]
pub struct ChanIdLocalReceiverRemotelyMinted(ChanId);

impl ChanIdLocalReceiverRemotelyMinted {
    /// The wrapped channel ID.
    pub closed spec fn id(self) -> ChanId {
        self.0
    }

    /// The newtype wrapping a channel ID.
    pub closed spec fn wrap(chan_id: ChanId) -> Self {
        ChanIdLocalReceiverRemotelyMinted(chan_id)
    }

    /// Construct without checking component constraints.
    pub fn new_unchecked(chan_id: ChanId) -> (r: Self)
        ensures
            r.id() == chan_id,
            r == Self::wrap(chan_id),
    {
        ChanIdLocalReceiverRemotelyMinted(chan_id)
    }

    /// Get is-oneshot part.
    pub fn is_oneshot(self) -> (r: bool)
        ensures
            r == self.id().oneshot_bit(),
    {
        self.0.is_oneshot()
    }

    /// Categorize this channel ID by whether it is multishot.
    pub fn sort_by_is_oneshot(self) -> (r: SortByIsOneshot<ChanIdLocalReceiverRemotelyMintedMultishot, ChanIdLocalReceiverRemotelyMintedOneshot>)
        ensures
            self.id().oneshot_bit() ==> (r matches SortByIsOneshot::Oneshot(c) && c.id() == self.id()),
            !(self.id().oneshot_bit()) ==> (r matches SortByIsOneshot::Multishot(c) && c.id() == self.id()),
    {
        if self.is_oneshot() {
            SortByIsOneshot::Oneshot(ChanIdLocalReceiverRemotelyMintedOneshot::new_unchecked(self.0))
        } else {
            SortByIsOneshot::Multishot(ChanIdLocalReceiverRemotelyMintedMultishot::new_unchecked(self.0))
        }
    }

    /// Get channel index part.
    pub fn idx(self) -> (r: u64)
        ensures
            r == self.id().idx_part(),
    {
        self.0.idx()
    }
}

impl From<ChanIdLocalReceiverRemotelyMinted> for ChanId {
    fn from(subtype: ChanIdLocalReceiverRemotelyMinted) -> (r: ChanId) {
        subtype.0
    }
}

impl vstd::std_specs::convert::FromSpecImpl<ChanIdLocalReceiverRemotelyMinted> for ChanId {
    open spec fn obeys_from_spec() -> bool {
        true
    }

    open spec fn from_spec(v: ChanIdLocalReceiverRemotelyMinted) -> ChanId {
        v.id()
    }
}

impl From<ChanIdLocalReceiverRemotelyMinted> for ChanIdRemotelyMinted {
    fn from(subtype: ChanIdLocalReceiverRemotelyMinted) -> (r: Self) {
        ChanIdRemotelyMinted::new_unchecked(subtype.0)
    }
}

impl vstd::std_specs::convert::FromSpecImpl<ChanIdLocalReceiverRemotelyMinted> for ChanIdRemotelyMinted {
    open spec fn obeys_from_spec() -> bool {
        true
    }

    open spec fn from_spec(v: ChanIdLocalReceiverRemotelyMinted) -> ChanIdRemotelyMinted {
        ChanIdRemotelyMinted::wrap(v.id())
    }
}

impl From<ChanIdLocalReceiverRemotelyMinted> for ChanIdLocalReceiver {
    fn from(subtype: ChanIdLocalReceiverRemotelyMinted) -> (r: Self) {
        ChanIdLocalReceiver::new_unchecked(subtype.0)
    }
}

impl vstd::std_specs::convert::FromSpecImpl<ChanIdLocalReceiverRemotelyMinted> for ChanIdLocalReceiver {
    open spec fn obeys_from_spec() -> bool {
        true
    }

    open spec fn from_spec(v: ChanIdLocalReceiverRemotelyMinted) -> ChanIdLocalReceiver {
        ChanIdLocalReceiver::wrap(v.id())
    }
}

/// Newtype wrapper around a channel ID that is received by the local side, minted by the remote side, multishot.
#[derive(Debug, Copy, Clone, PartialEq, Eq, Hash, Structural)]
pub struct ChanIdLocalReceiverRemotelyMintedMultishot(ChanId);

impl ChanIdLocalReceiverRemotelyMintedMultishot {
    /// The wrapped channel ID.
    pub closed spec fn id(self) -> ChanId {
        self.0
    }

    /// The newtype wrapping a channel ID.
    pub closed spec fn wrap(chan_id: ChanId) -> Self {
        ChanIdLocalReceiverRemotelyMintedMultishot(chan_id)
    }

    /// Construct without checking component constraints.
    pub fn new_unchecked(chan_id: ChanId) -> (r: Self)
        ensures
            r.id() == chan_id,
            r == Self::wrap(chan_id),
    {
        ChanIdLocalReceiverRemotelyMintedMultishot(chan_id)
    }

    /// Get channel index part.
    pub fn idx(self) -> (r: u64)
        ensures
            r == self.id().idx_part(),
    {
        self.0.idx()
    }
}

impl From<ChanIdLocalReceiverRemotelyMintedMultishot> for ChanId {
    fn from(subtype: ChanIdLocalReceiverRemotelyMintedMultishot) -> (r: ChanId) {
        subtype.0
    }
}

impl vstd::std_specs::convert::FromSpecImpl<ChanIdLocalReceiverRemotelyMintedMultishot> for ChanId {
    open spec fn obeys_from_spec() -> bool {
        true
    }

    open spec fn from_spec(v: ChanIdLocalReceiverRemotelyMintedMultishot) -> ChanId {
        v.id()
    }
}

impl From<ChanIdLocalReceiverRemotelyMintedMultishot> for ChanIdMultishot {
    fn from(subtype: ChanIdLocalReceiverRemotelyMintedMultishot) -> (r: Self) {
        ChanIdMultishot::new_unchecked(subtype.0)
    }
}

impl vstd::std_specs::convert::FromSpecImpl<ChanIdLocalReceiverRemotelyMintedMultishot> for ChanIdMultishot {
    open spec fn obeys_from_spec() -> bool {
        true
    }

    open spec fn from_spec(v: ChanIdLocalReceiverRemotelyMintedMultishot) -> ChanIdMultishot {
        ChanIdMultishot::wrap(v.id())
    }
}

impl From<ChanIdLocalReceiverRemotelyMintedMultishot> for ChanIdRemotelyMinted {
    fn from(subtype: ChanIdLocalReceiverRemotelyMintedMultishot) -> (r: Self) {
        ChanIdRemotelyMinted::new_unchecked(subtype.0)
    }
}

impl vstd::std_specs::convert::FromSpecImpl<ChanIdLocalReceiverRemotelyMintedMultishot> for ChanIdRemotelyMinted {
    open spec fn obeys_from_spec() -> bool {
        true
    }

    open spec fn from_spec(v: ChanIdLocalReceiverRemotelyMintedMultishot) -> ChanIdRemotelyMinted {
        ChanIdRemotelyMinted::wrap(v.id())
    }
}

impl From<ChanIdLocalReceiverRemotelyMintedMultishot> for ChanIdRemotelyMintedMultishot {
    fn from(subtype: ChanIdLocalReceiverRemotelyMintedMultishot) -> (r: Self) {
        ChanIdRemotelyMintedMultishot::new_unchecked(subtype.0)
    }
}

impl vstd::std_specs::convert::FromSpecImpl<ChanIdLocalReceiverRemotelyMintedMultishot> for ChanIdRemotelyMintedMultishot {
    open spec fn obeys_from_spec() -> bool {
        true
    }

    open spec fn from_spec(v: ChanIdLocalReceiverRemotelyMintedMultishot) -> ChanIdRemotelyMintedMultishot {
        ChanIdRemotelyMintedMultishot::wrap(v.id())
    }
}

impl From<ChanIdLocalReceiverRemotelyMintedMultishot> for ChanIdLocalReceiver {
    fn from(subtype: ChanIdLocalReceiverRemotelyMintedMultishot) -> (r: Self) {
        ChanIdLocalReceiver::new_unchecked(subtype.0)
    }
}

impl vstd::std_specs::convert::FromSpecImpl<ChanIdLocalReceiverRemotelyMintedMultishot> for ChanIdLocalReceiver {
    open spec fn obeys_from_spec() -> bool {
        true
    }

    open spec fn from_spec(v: ChanIdLocalReceiverRemotelyMintedMultishot) -> ChanIdLocalReceiver {
        ChanIdLocalReceiver::wrap(v.id())
    }
}

impl From<ChanIdLocalReceiverRemotelyMintedMultishot> for ChanIdLocalReceiverMultishot {
    fn from(subtype: ChanIdLocalReceiverRemotelyMintedMultishot) -> (r: Self) {
        ChanIdLocalReceiverMultishot::new_unchecked(subtype.0)
    }
}

impl vstd::std_specs::convert::FromSpecImpl<ChanIdLocalReceiverRemotelyMintedMultishot> for ChanIdLocalReceiverMultishot {
    open spec fn obeys_from_spec() -> bool {
        true
    }

    open spec fn from_spec(v: ChanIdLocalReceiverRemotelyMintedMultishot) -> ChanIdLocalReceiverMultishot {
        ChanIdLocalReceiverMultishot::wrap(v.id())
    }
}

impl From<ChanIdLocalReceiverRemotelyMintedMultishot> for ChanIdLocalReceiverRemotelyMinted {
    fn from(subtype: ChanIdLocalReceiverRemotelyMintedMultishot) -> (r: Self) {
        ChanIdLocalReceiverRemotelyMinted::new_unchecked(subtype.0)
    }
}

impl vstd::std_specs::convert::FromSpecImpl<ChanIdLocalReceiverRemotelyMintedMultishot> for ChanIdLocalReceiverRemotelyMinted {
    open spec fn obeys_from_spec() -> bool {
        true
    }

    open spec fn from_spec(v: ChanIdLocalReceiverRemotelyMintedMultishot) -> ChanIdLocalReceiverRemotelyMinted {
        ChanIdLocalReceiverRemotelyMinted::wrap(v.id())
    }
}

/// Newtype wrapper around a channel ID that is received by the local side, minted by the remote side, oneshot.
#[derive(Debug, Copy, Clone, PartialEq, Eq, Hash, Structural)]
pub struct ChanIdLocalReceiverRemotelyMintedOneshot(ChanId);

impl ChanIdLocalReceiverRemotelyMintedOneshot {
    /// The wrapped channel ID.
    pub closed spec fn id(self) -> ChanId {
        self.0
    }

    /// The newtype wrapping a channel ID.
    pub closed spec fn wrap(chan_id: ChanId) -> Self {
        ChanIdLocalReceiverRemotelyMintedOneshot(chan_id)
    }

    /// Construct without checking component constraints.
    pub fn new_unchecked(chan_id: ChanId) -> (r: Self)
        ensures
            r.id() == chan_id,
            r == Self::wrap(chan_id),
    {
        ChanIdLocalReceiverRemotelyMintedOneshot(chan_id)
    }

    /// Get channel index part.
    pub fn idx(self) -> (r: u64)
        ensures
            r == self.id().idx_part(),
    {
        self.0.idx()
    }
}

impl From<ChanIdLocalReceiverRemotelyMintedOneshot> for ChanId {
    fn from(subtype: ChanIdLocalReceiverRemotelyMintedOneshot) -> (r: ChanId) {
        subtype.0
    }
}

impl vstd::std_specs::convert::FromSpecImpl<ChanIdLocalReceiverRemotelyMintedOneshot> for ChanId {
    open spec fn obeys_from_spec() -> bool {
        true
    }

    open spec fn from_spec(v: ChanIdLocalReceiverRemotelyMintedOneshot) -> ChanId {
        v.id()
    }
}

impl From<ChanIdLocalReceiverRemotelyMintedOneshot> for ChanIdOneshot {
    fn from(subtype: ChanIdLocalReceiverRemotelyMintedOneshot) -> (r: Self) {
        ChanIdOneshot::new_unchecked(subtype.0)
    }
}

impl vstd::std_specs::convert::FromSpecImpl<ChanIdLocalReceiverRemotelyMintedOneshot> for ChanIdOneshot {
    open spec fn obeys_from_spec() -> bool {
        true
    }

    open spec fn from_spec(v: ChanIdLocalReceiverRemotelyMintedOneshot) -> ChanIdOneshot {
        ChanIdOneshot::wrap(v.id())
    }
}

impl From<ChanIdLocalReceiverRemotelyMintedOneshot> for ChanIdRemotelyMinted {
    fn from(subtype: ChanIdLocalReceiverRemotelyMintedOneshot) -> (r: Self) {
        ChanIdRemotelyMinted::new_unchecked(subtype.0)
    }
}

impl vstd::std_specs::convert::FromSpecImpl<ChanIdLocalReceiverRemotelyMintedOneshot> for ChanIdRemotelyMinted {
    open spec fn obeys_from_spec() -> bool {
        true
    }

    open spec fn from_spec(v: ChanIdLocalReceiverRemotelyMintedOneshot) -> ChanIdRemotelyMinted {
        ChanIdRemotelyMinted::wrap(v.id())
    }
}

impl From<ChanIdLocalReceiverRemotelyMintedOneshot> for ChanIdRemotelyMintedOneshot {
    fn from(subtype: ChanIdLocalReceiverRemotelyMintedOneshot) -> (r: Self) {
        ChanIdRemotelyMintedOneshot::new_unchecked(subtype.0)
    }
}

impl vstd::std_specs::convert::FromSpecImpl<ChanIdLocalReceiverRemotelyMintedOneshot> for ChanIdRemotelyMintedOneshot {
    open spec fn obeys_from_spec() -> bool {
        true
    }

    open spec fn from_spec(v: ChanIdLocalReceiverRemotelyMintedOneshot) -> ChanIdRemotelyMintedOneshot {
        ChanIdRemotelyMintedOneshot::wrap(v.id())
    }
}

impl From<ChanIdLocalReceiverRemotelyMintedOneshot> for ChanIdLocalReceiver {
    fn from(subtype: ChanIdLocalReceiverRemotelyMintedOneshot) -> (r: Self) {
        ChanIdLocalReceiver::new_unchecked(subtype.0)
    }
}

impl vstd::std_specs::convert::FromSpecImpl<ChanIdLocalReceiverRemotelyMintedOneshot> for ChanIdLocalReceiver {
    open spec fn obeys_from_spec() -> bool {
        true
    }

    open spec fn from_spec(v: ChanIdLocalReceiverRemotelyMintedOneshot) -> ChanIdLocalReceiver {
        ChanIdLocalReceiver::wrap(v.id())
    }
}

impl From<ChanIdLocalReceiverRemotelyMintedOneshot> for ChanIdLocalReceiverOneshot {
    fn from(subtype: ChanIdLocalReceiverRemotelyMintedOneshot) -> (r: Self) {
        ChanIdLocalReceiverOneshot::new_unchecked(subtype.0)
    }
}

impl vstd::std_specs::convert::FromSpecImpl<ChanIdLocalReceiverRemotelyMintedOneshot> for ChanIdLocalReceiverOneshot {
    open spec fn obeys_from_spec() -> bool {
        true
    }

    open spec fn from_spec(v: ChanIdLocalReceiverRemotelyMintedOneshot) -> ChanIdLocalReceiverOneshot {
        ChanIdLocalReceiverOneshot::wrap(v.id())
    }
}

impl From<ChanIdLocalReceiverRemotelyMintedOneshot> for ChanIdLocalReceiverRemotelyMinted {
    fn from(subtype: ChanIdLocalReceiverRemotelyMintedOneshot) -> (r: Self) {
        ChanIdLocalReceiverRemotelyMinted::new_unchecked(subtype.0)
    }
}

impl vstd::std_specs::convert::FromSpecImpl<ChanIdLocalReceiverRemotelyMintedOneshot> for ChanIdLocalReceiverRemotelyMinted {
    open spec fn obeys_from_spec() -> bool {
        true
    }

    open spec fn from_spec(v: ChanIdLocalReceiverRemotelyMintedOneshot) -> ChanIdLocalReceiverRemotelyMinted {
        ChanIdLocalReceiverRemotelyMinted::wrap(v.id())
    }
}

/// Typed version of the entrypoint channel from the client perspective.
pub fn client_entrypoint() -> (r: ChanIdLocalSenderLocallyMintedMultishot)
    ensures
        r.id() == ChanId::entrypoint_spec(),
{
    ChanIdLocalSenderLocallyMintedMultishot(ChanId::entrypoint())
}

/// Typed version of the entrypoint channel from the server perspective.
pub fn server_entrypoint() -> (r: ChanIdLocalReceiverRemotelyMintedMultishot)
    ensures
        r.id() == ChanId::entrypoint_spec(),
{
    ChanIdLocalReceiverRemotelyMintedMultishot(ChanId::entrypoint())
}

} // verus!
