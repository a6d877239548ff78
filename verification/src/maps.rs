//! Single-pass traversal of a snapshot of the guest's memory-mapping table.

use vstd::prelude::*;
use crate::engine::{EngineCall, GuestAddr};
use crate::perms::MmapPerms;

verus! {

/// What a [`MapInfo`] holds, as plain values.
pub struct MapInfoView {
    pub start: GuestAddr,
    pub end: GuestAddr,
    pub offset: GuestAddr,
    pub path: Option<Seq<char>>,
    pub flags: i32,
    pub is_priv: i32,
}

/// One entry of the guest's memory-mapping table.
#[derive(Debug, PartialEq, Eq)]
pub struct MapInfo {
    start: GuestAddr,
    end: GuestAddr,
    offset: GuestAddr,
    path: Option<String>,
    flags: i32,
    is_priv: i32,
}

impl View for MapInfo {
    type V = MapInfoView;

    closed spec fn view(&self) -> MapInfoView {
        MapInfoView {
            start: self.start,
            end: self.end,
            offset: self.offset,
            path: match self.path {
                Some(p) => Some(p@),
                None => None,
            },
            flags: self.flags,
            is_priv: self.is_priv,
        }
    }
}

impl MapInfo {
    /// An entry with the values that the native engine reported: `path` is
    /// absent where the mapping has no name, `flags` is the native protection
    /// word, and `is_priv` is nonzero for a private mapping.
    pub fn new(
        start: GuestAddr,
        end: GuestAddr,
        offset: GuestAddr,
        path: Option<String>,
        flags: i32,
        is_priv: i32,
    ) -> (info: MapInfo)
        ensures
            info@ == (MapInfoView {
                start,
                end,
                offset,
                path: match path {
                    Some(p) => Some(p@),
                    None => None,
                },
                flags,
                is_priv,
            }),
    {
        MapInfo { start, end, offset, path, flags, is_priv }
    }

    /// First guest address of the mapping.
    #[must_use]
    pub fn start(&self) -> (r: GuestAddr)
        ensures
            r == self@.start,
    {
        self.start
    }

    /// Guest address just past the mapping.
    #[must_use]
    pub fn end(&self) -> (r: GuestAddr)
        ensures
            r == self@.end,
    {
        self.end
    }

    /// Offset of the mapping in the object that backs it.
    #[must_use]
    pub fn offset(&self) -> (r: GuestAddr)
        ensures
            r == self@.offset,
    {
        self.offset
    }

    /// Name of the object that backs the mapping, where it has one.
    #[must_use]
    pub fn path(&self) -> (r: Option<&str>)
        ensures
            r is Some <==> self@.path is Some,
            r is Some ==> r->0@ == self@.path->0,
    {
        match &self.path {
            Some(p) => Some(p.as_str()),
            None => None,
        }
    }

    /// The native protection word of the mapping.
    #[must_use]
    pub fn raw_flags(&self) -> (r: i32)
        ensures
            r == self@.flags,
    {
        self.flags
    }

    /// Whether the protection word of the mapping names a [`MmapPerms`].
    pub open spec fn has_valid_flags(&self) -> bool {
        0 <= self@.flags <= 7
    }

    /// Access that the mapping grants.
    #[must_use]
    pub fn flags(&self) -> (r: MmapPerms)
        requires
            self.has_valid_flags(),
        ensures
            Some(r) == MmapPerms::of_bits(self@.flags as int),
            r.bits() == self@.flags,
    {
        match MmapPerms::try_from_bits(self.flags) {
            Some(p) => p,
            None => vstd::pervasive::unreached(),
        }
    }

    /// Whether the mapping is private to the guest.
    #[must_use]
    pub fn is_priv(&self) -> (r: bool)
        ensures
            r == (self@.is_priv != 0),
    {
        self.is_priv != 0
    }
}

/// What a [`GuestMaps`] holds, as plain values.
pub struct GuestMapsView {
    /// The native snapshot that the traversal owns.
    pub snapshot: usize,
    /// Position in the snapshot; zero once the traversal has ended.
    pub cursor: usize,
    /// Whether the snapshot was given back.
    pub released: bool,
}

/// Traversal of one native snapshot of the memory-mapping table. It owns the
/// snapshot until [`GuestMaps::release`] gives it back.
#[derive(Debug)]
pub struct GuestMaps {
    orig_c_iter: usize,
    c_iter: usize,
    released: bool,
}

impl View for GuestMaps {
    type V = GuestMapsView;

    closed spec fn view(&self) -> GuestMapsView {
        GuestMapsView { snapshot: self.orig_c_iter, cursor: self.c_iter, released: self.released }
    }
}

impl GuestMapsView {
    /// The native call that the next step of the traversal needs, if the
    /// traversal can go on.
    pub open spec fn next_call(self) -> Option<EngineCall> {
        if self.released || self.cursor == 0 {
            None
        } else {
            Some(EngineCall::MapsNext { cursor: self.cursor })
        }
    }

    /// The traversal after the engine answered a step with `cursor`.
    pub open spec fn advance(self, cursor: usize) -> GuestMapsView {
        GuestMapsView { cursor, ..self }
    }

    /// The traversal after its snapshot was given back.
    pub open spec fn release(self) -> GuestMapsView {
        GuestMapsView { released: true, ..self }
    }

    /// The native call that gives the snapshot back, if it is still owed.
    pub open spec fn release_call(self) -> Option<EngineCall> {
        if self.released {
            None
        } else {
            Some(EngineCall::FreeSelfMaps { snapshot: self.snapshot })
        }
    }
}

impl GuestMaps {
    /// Starts the traversal of the fresh native snapshot `snapshot`.
    #[must_use]
    pub fn new(snapshot: usize) -> (maps: GuestMaps)
        ensures
            maps@ == (GuestMapsView { snapshot, cursor: snapshot, released: false }),
    {
        GuestMaps { orig_c_iter: snapshot, c_iter: snapshot, released: false }
    }

    /// The native call to make before [`GuestMaps::next`]: none once the
    /// traversal has ended or the snapshot was given back.
    pub fn next_call(&self) -> (call: Option<EngineCall>)
        ensures
            call == self@.next_call(),
    {
        if self.released || self.c_iter == 0 {
            None
        } else {
            Some(EngineCall::MapsNext { cursor: self.c_iter })
        }
    }

    /// Takes the engine's answer to the call of [`GuestMaps::next_call`]: the
    /// new position `cursor` and the entry `entry` that it filled. A zero
    /// position ends the traversal, and the entry is then dropped.
    pub fn next(&mut self, cursor: usize, entry: MapInfo) -> (r: Option<MapInfo>)
        requires
            old(self)@.next_call() is Some,
        ensures
            final(self)@ == old(self)@.advance(cursor),
            cursor == 0 ==> r is None,
            cursor != 0 ==> r == Some(entry),
    {
        self.c_iter = cursor;
        if cursor == 0 {
            None
        } else {
            Some(entry)
        }
    }

    /// Gives the snapshot back: the first call returns the native call that
    /// frees it, every later one nothing.
    pub fn release(&mut self) -> (call: Option<EngineCall>)
        ensures
            call == old(self)@.release_call(),
            final(self)@ == old(self)@.release(),
    {
        if self.released {
            None
        } else {
            self.released = true;
            Some(EngineCall::FreeSelfMaps { snapshot: self.orig_c_iter })
        }
    }
}

/// A traversal owes exactly one release of its snapshot, whatever was done
/// with it before: a fresh one owes it, steps of the traversal change neither
/// the debt nor the snapshot, and once released nothing more is owed and no
/// step is possible.
pub proof fn lemma_snapshot_released_once(snapshot: usize, m: GuestMapsView, cursor: usize)
    ensures
        (GuestMapsView { snapshot, cursor: snapshot, released: false }).release_call() == Some(
            EngineCall::FreeSelfMaps { snapshot },
        ),
        m.advance(cursor).release_call() == m.release_call(),
        m.release().release_call() is None,
        m.release().next_call() is None,
        m.release().release() == m.release(),
        m.release().snapshot == m.snapshot,
{
}

} // verus!
