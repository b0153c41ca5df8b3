//! The marshalling arena: an append-only store of owned buffers created
//! while translating one configuration value.
//!
//! Raw records produced by a translation point into this store. Every push
//! either leaves the arena unchanged (empty input) or appends exactly one
//! buffer, so a pointer handed out earlier keeps referring to the same,
//! unchanged buffer for as long as the arena lives.

use crate::abi::{AbiPtr, RawBlob, RawList, RawPropOverrideDesc, RawString};
use crate::reals::{Real, TransformOverride};
use vstd::prelude::*;
use vstd::string::StrSliceExecFns;

verus! {

/// One owned buffer in the arena.
pub enum ArenaBuf {
    Text(String),
    Bytes(Vec<u8>),
    U32s(Vec<u32>),
    Reals(Vec<Real>),
    PropOverrides(Vec<RawPropOverrideDesc>),
    TransformOverrides(Vec<TransformOverride>),
}

/// The arena itself. Only translation code appends to it; nothing ever
/// removes or overwrites a buffer.
pub struct Arena {
    items: Vec<ArenaBuf>,
}

impl View for Arena {
    type V = Seq<ArenaBuf>;

    closed spec fn view(&self) -> Seq<ArenaBuf> {
        self.items@
    }
}

/// `post` is `pre` with zero or more buffers appended: everything `pre`
/// owned, `post` still owns unchanged at the same index.
pub open spec fn arena_extends(post: Arena, pre: Arena) -> bool {
    &&& post@.len() >= pre@.len()
    &&& forall|i: int| 0 <= i < pre@.len() ==> post@[i] == pre@[i]
}

impl Arena {
    pub fn new() -> (r: Arena)
        ensures
            r@.len() == 0,
    {
        Arena { items: Vec::new() }
    }

    /// The number of buffers currently owned.
    pub fn len(&self) -> (r: usize)
        ensures
            r == self@.len(),
    {
        self.items.len()
    }

    /// Borrows one owned buffer.
    pub fn buf_at(&self, i: usize) -> (r: &ArenaBuf)
        requires
            i < self@.len(),
        ensures
            *r == self@[i as int],
    {
        &self.items[i]
    }

    /// Appends one owned text buffer; empty text is never stored, it keeps
    /// the {null, 0} representation instead. The length an ABI string
    /// reference carries counts the characters of the text.
    pub fn push_text(&mut self, s: String) -> (r: RawString)
        ensures
            s@.len() == 0 ==> {
                &&& final(self)@ == old(self)@
                &&& r.data == AbiPtr::Null
                &&& r.length == 0
            },
            s@.len() > 0 ==> {
                &&& final(self)@ == old(self)@.push(ArenaBuf::Text(s))
                &&& r.data == (AbiPtr::Arena { buf: old(self)@.len() as usize })
                &&& r.length == s@.len()
            },
    {
        let length = s.as_str().unicode_len();
        if length == 0 {
            return RawString::null();
        }
        let buf = self.items.len();
        self.items.push(ArenaBuf::Text(s));
        RawString { data: AbiPtr::Arena { buf }, length }
    }

    /// Appends one owned byte buffer; an empty buffer keeps {null, 0}.
    pub fn push_bytes(&mut self, b: Vec<u8>) -> (r: RawBlob)
        ensures
            b@.len() == 0 ==> {
                &&& final(self)@ == old(self)@
                &&& r.data == AbiPtr::Null
                &&& r.size == 0
            },
            b@.len() > 0 ==> {
                &&& final(self)@ == old(self)@.push(ArenaBuf::Bytes(b))
                &&& r.data == (AbiPtr::Arena { buf: old(self)@.len() as usize })
                &&& r.size == b@.len()
            },
    {
        let size = b.len();
        if size == 0 {
            return RawBlob::null();
        }
        let buf = self.items.len();
        self.items.push(ArenaBuf::Bytes(b));
        RawBlob { data: AbiPtr::Arena { buf }, size }
    }

    /// Appends one owned `u32` list buffer; an empty list keeps {null, 0}.
    pub fn push_u32s(&mut self, v: Vec<u32>) -> (r: RawList<u32>)
        ensures
            v@.len() == 0 ==> {
                &&& final(self)@ == old(self)@
                &&& r.data == AbiPtr::Null
                &&& r.count == 0
            },
            v@.len() > 0 ==> {
                &&& final(self)@ == old(self)@.push(ArenaBuf::U32s(v))
                &&& r.data == (AbiPtr::Arena { buf: old(self)@.len() as usize })
                &&& r.count == v@.len()
            },
    {
        let count = v.len();
        if count == 0 {
            return RawList::null();
        }
        let buf = self.items.len();
        self.items.push(ArenaBuf::U32s(v));
        RawList { data: AbiPtr::Arena { buf }, count, _marker: core::marker::PhantomData }
    }

    /// Appends one owned scalar list buffer; an empty list keeps {null, 0}.
    pub fn push_reals(&mut self, v: Vec<Real>) -> (r: RawList<Real>)
        ensures
            v@.len() == 0 ==> {
                &&& final(self)@ == old(self)@
                &&& r.data == AbiPtr::Null
                &&& r.count == 0
            },
            v@.len() > 0 ==> {
                &&& final(self)@ == old(self)@.push(ArenaBuf::Reals(v))
                &&& r.data == (AbiPtr::Arena { buf: old(self)@.len() as usize })
                &&& r.count == v@.len()
            },
    {
        let count = v.len();
        if count == 0 {
            return RawList::null();
        }
        let buf = self.items.len();
        self.items.push(ArenaBuf::Reals(v));
        RawList { data: AbiPtr::Arena { buf }, count, _marker: core::marker::PhantomData }
    }

    /// Appends one buffer of translated property-override records; an empty
    /// list keeps {null, 0}.
    pub fn push_prop_overrides(&mut self, v: Vec<RawPropOverrideDesc>) -> (r: RawList<
        RawPropOverrideDesc,
    >)
        ensures
            v@.len() == 0 ==> {
                &&& final(self)@ == old(self)@
                &&& r.data == AbiPtr::Null
                &&& r.count == 0
            },
            v@.len() > 0 ==> {
                &&& final(self)@ == old(self)@.push(ArenaBuf::PropOverrides(v))
                &&& r.data == (AbiPtr::Arena { buf: old(self)@.len() as usize })
                &&& r.count == v@.len()
            },
    {
        let count = v.len();
        if count == 0 {
            return RawList::null();
        }
        let buf = self.items.len();
        self.items.push(ArenaBuf::PropOverrides(v));
        RawList { data: AbiPtr::Arena { buf }, count, _marker: core::marker::PhantomData }
    }

    /// Appends one buffer of transform-override records; an empty list keeps
    /// {null, 0}.
    pub fn push_transform_overrides(&mut self, v: Vec<TransformOverride>) -> (r: RawList<
        TransformOverride,
    >)
        ensures
            v@.len() == 0 ==> {
                &&& final(self)@ == old(self)@
                &&& r.data == AbiPtr::Null
                &&& r.count == 0
            },
            v@.len() > 0 ==> {
                &&& final(self)@ == old(self)@.push(ArenaBuf::TransformOverrides(v))
                &&& r.data == (AbiPtr::Arena { buf: old(self)@.len() as usize })
                &&& r.count == v@.len()
            },
    {
        let count = v.len();
        if count == 0 {
            return RawList::null();
        }
        let buf = self.items.len();
        self.items.push(ArenaBuf::TransformOverrides(v));
        RawList { data: AbiPtr::Arena { buf }, count, _marker: core::marker::PhantomData }
    }

    /// Appends one owned byte buffer and hands back only the pointer, null
    /// for an empty buffer.
    pub fn push_vec(&mut self, vec: Vec<u8>) -> (r: AbiPtr)
        ensures
            vec@.len() == 0 ==> final(self)@ == old(self)@ && r == AbiPtr::Null,
            vec@.len() > 0 ==> {
                &&& final(self)@ == old(self)@.push(ArenaBuf::Bytes(vec))
                &&& r == (AbiPtr::Arena { buf: old(self)@.len() as usize })
            },
    {
        let blob = self.push_bytes(vec);
        blob.data
    }
}

/// Appending to the arena never disturbs a buffer it already owns: a raw
/// pointer into the arena stays valid, with unchanged content, until the
/// arena itself is dropped.
pub proof fn lemma_arena_extension_preserves_buffers(pre: Arena, post: Arena, i: int)
    requires
        arena_extends(post, pre),
        0 <= i < pre@.len(),
    ensures
        post@[i] == pre@[i],
{
}

/// Extension is transitive: a translation made of many pushes still leaves
/// every earlier buffer in place.
pub proof fn lemma_arena_extends_trans(a: Arena, b: Arena, c: Arena)
    requires
        arena_extends(b, a),
        arena_extends(c, b),
    ensures
        arena_extends(c, a),
{
}

} // verus!
