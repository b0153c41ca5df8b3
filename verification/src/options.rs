//! Option nodes: the tagged per-field values a caller configures, and their
//! translation into flat ABI references.
//!
//! Every configurable field is one of {unset, borrowed, owned} (callbacks and
//! raw escapes have their own types). Translation resolves each field
//! independently: unset becomes the zero/null representation, borrowed data
//! becomes a pointer aliasing the caller's memory without a copy, and owned
//! data moves into the arena. Empty strings, blobs and lists always become
//! {null pointer, zero length}, never a non-null pointer to zero-sized
//! storage.

use crate::abi::{AbiPtr, RawBlob, RawList, RawString};
use crate::arena::{Arena, ArenaBuf, arena_extends};
use crate::reals::{Real, TransformOverride};
use vstd::prelude::*;
use vstd::string::StrSliceExecFns;

verus! {

/// A caller-owned string the marshaller may alias but must not copy: the
/// address identifies the caller's memory, the text is what lives there.
pub struct CallerStr {
    pub addr: u64,
    pub text: String,
}

/// A caller-owned byte buffer the marshaller may alias but must not copy.
pub struct CallerBytes {
    pub addr: u64,
    pub bytes: Vec<u8>,
}

/// A caller-owned array the marshaller may alias but must not copy.
pub struct CallerSlice<T> {
    pub addr: u64,
    pub items: Vec<T>,
}

/// An optional string field: unset, borrowed from the caller, or owned.
pub enum StringOpt {
    Unset,
    Ref(CallerStr),
    Owned(String),
}

impl Default for StringOpt {
    fn default() -> (r: Self)
        ensures
            r is Unset,
    {
        StringOpt::Unset
    }
}

/// An optional blob field: unset, borrowed from the caller, or owned.
pub enum BlobOpt {
    Unset,
    Ref(CallerBytes),
    Owned(Vec<u8>),
}

impl Default for BlobOpt {
    fn default() -> (r: Self)
        ensures
            r is Unset,
    {
        BlobOpt::Unset
    }
}

/// An optional list field: unset, borrowed (shared or exclusive) from the
/// caller, or owned.
pub enum ListOpt<T> {
    Unset,
    Ref(CallerSlice<T>),
    Mut(CallerSlice<T>),
    Owned(Vec<T>),
}

impl<T> Default for ListOpt<T> {
    fn default() -> (r: Self)
        ensures
            r is Unset,
    {
        ListOpt::Unset
    }
}

/// What a correctly translated string field looks like: unset and empty
/// fields are {null, 0}; borrowed fields alias the caller's address with no
/// copy; owned fields point at an arena buffer whose content equals the
/// input.
pub open spec fn string_translated(src: StringOpt, r: RawString, arena: Arena) -> bool {
    match src {
        StringOpt::Unset => r.data == AbiPtr::Null && r.length == 0,
        StringOpt::Ref(c) => if c.text@.len() == 0 {
            r.data == AbiPtr::Null && r.length == 0
        } else {
            r.data == (AbiPtr::Borrowed { addr: c.addr }) && r.length == c.text@.len()
        },
        StringOpt::Owned(s) => if s@.len() == 0 {
            r.data == AbiPtr::Null && r.length == 0
        } else {
            exists|i: usize|
                {
                    &&& i < arena@.len()
                    &&& #[trigger] arena@[i as int] matches ArenaBuf::Text(t) && t@ == s@
                    &&& r.data == (AbiPtr::Arena { buf: i })
                    &&& r.length == s@.len()
                }
        },
    }
}

/// What a correctly translated blob field looks like; the shape of
/// `string_translated`, over bytes.
pub open spec fn blob_translated(src: BlobOpt, r: RawBlob, arena: Arena) -> bool {
    match src {
        BlobOpt::Unset => r.data == AbiPtr::Null && r.size == 0,
        BlobOpt::Ref(c) => if c.bytes@.len() == 0 {
            r.data == AbiPtr::Null && r.size == 0
        } else {
            r.data == (AbiPtr::Borrowed { addr: c.addr }) && r.size == c.bytes@.len()
        },
        BlobOpt::Owned(b) => if b@.len() == 0 {
            r.data == AbiPtr::Null && r.size == 0
        } else {
            exists|i: usize|
                {
                    &&& i < arena@.len()
                    &&& #[trigger] arena@[i as int] matches ArenaBuf::Bytes(a) && a@ == b@
                    &&& r.data == (AbiPtr::Arena { buf: i })
                    &&& r.size == b@.len()
                }
        },
    }
}

/// A translated string field stays translated while the arena only grows.
pub proof fn lemma_string_translated_stable(src: StringOpt, r: RawString, pre: Arena, post: Arena)
    requires
        string_translated(src, r, pre),
        arena_extends(post, pre),
    ensures
        string_translated(src, r, post),
{
    if let StringOpt::Owned(s) = src {
        if s@.len() > 0 {
            let i = choose|i: usize|
                {
                    &&& i < pre@.len()
                    &&& #[trigger] pre@[i as int] matches ArenaBuf::Text(t) && t@ == s@
                    &&& r.data == (AbiPtr::Arena { buf: i })
                    &&& r.length == s@.len()
                };
            assert(post@[i as int] == pre@[i as int]);
        }
    }
}

/// A translated blob field stays translated while the arena only grows.
pub proof fn lemma_blob_translated_stable(src: BlobOpt, r: RawBlob, pre: Arena, post: Arena)
    requires
        blob_translated(src, r, pre),
        arena_extends(post, pre),
    ensures
        blob_translated(src, r, post),
{
    if let BlobOpt::Owned(b) = src {
        if b@.len() > 0 {
            let i = choose|i: usize|
                {
                    &&& i < pre@.len()
                    &&& #[trigger] pre@[i as int] matches ArenaBuf::Bytes(a) && a@ == b@
                    &&& r.data == (AbiPtr::Arena { buf: i })
                    &&& r.size == b@.len()
                };
            assert(post@[i as int] == pre@[i as int]);
        }
    }
}

impl StringOpt {
    /// Translates this field into a flat ABI string reference, moving owned
    /// text into the arena.
    pub fn from_rust(self, arena: &mut Arena) -> (r: RawString)
        ensures
            arena_extends(*final(arena), *old(arena)),
            string_translated(self, r, *final(arena)),
            self is Unset ==> final(arena)@ == old(arena)@,
            self is Ref ==> final(arena)@ == old(arena)@,
            self matches StringOpt::Owned(s) ==> if s@.len() == 0 {
                final(arena)@ == old(arena)@
            } else {
                final(arena)@ == old(arena)@.push(ArenaBuf::Text(s))
            },
    {
        match self {
            StringOpt::Unset => RawString::null(),
            StringOpt::Ref(c) => {
                let length = c.text.as_str().unicode_len();
                if length == 0 {
                    RawString::null()
                } else {
                    RawString { data: AbiPtr::Borrowed { addr: c.addr }, length }
                }
            },
            StringOpt::Owned(s) => {
                let n = arena.len();
                let ghost pre = arena@;
                let r = arena.push_text(s);
                proof {
                    if s@.len() > 0 {
                        let w = n;
                        assert(w == pre.len());
                        assert(arena@[w as int] == ArenaBuf::Text(s));
                        assert(string_translated(StringOpt::Owned(s), r, *arena)) by {
                            assert({
                                &&& w < arena@.len()
                                &&& arena@[w as int] matches ArenaBuf::Text(t) && t@ == s@
                                &&& r.data == (AbiPtr::Arena { buf: w })
                                &&& r.length == s@.len()
                            });
                        }
                    }
                }
                r
            },
        }
    }
}

impl BlobOpt {
    /// Translates this field into a flat ABI blob reference, moving owned
    /// bytes into the arena.
    pub fn from_rust(self, arena: &mut Arena) -> (r: RawBlob)
        ensures
            arena_extends(*final(arena), *old(arena)),
            blob_translated(self, r, *final(arena)),
            self is Unset ==> final(arena)@ == old(arena)@,
            self is Ref ==> final(arena)@ == old(arena)@,
            self matches BlobOpt::Owned(b) ==> if b@.len() == 0 {
                final(arena)@ == old(arena)@
            } else {
                final(arena)@ == old(arena)@.push(ArenaBuf::Bytes(b))
            },
    {
        match self {
            BlobOpt::Unset => RawBlob::null(),
            BlobOpt::Ref(c) => {
                let size = c.bytes.len();
                if size == 0 {
                    RawBlob::null()
                } else {
                    RawBlob { data: AbiPtr::Borrowed { addr: c.addr }, size }
                }
            },
            BlobOpt::Owned(b) => {
                let n = arena.len();
                let ghost pre = arena@;
                let r = arena.push_bytes(b);
                proof {
                    if b@.len() > 0 {
                        let w = n;
                        assert(w == pre.len());
                        assert(arena@[w as int] == ArenaBuf::Bytes(b));
                        assert(blob_translated(BlobOpt::Owned(b), r, *arena)) by {
                            assert({
                                &&& w < arena@.len()
                                &&& arena@[w as int] matches ArenaBuf::Bytes(a) && a@ == b@
                                &&& r.data == (AbiPtr::Arena { buf: w })
                                &&& r.size == b@.len()
                            });
                        }
                    }
                }
                r
            },
        }
    }
}

/// What a correctly translated plain-element list field looks like: unset
/// and empty lists are {null, 0}; borrowed lists alias the caller's address
/// with no copy; owned lists point at an arena buffer holding exactly the
/// input elements in order.
pub open spec fn u32_list_translated(src: ListOpt<u32>, r: RawList<u32>, arena: Arena) -> bool {
    match src {
        ListOpt::Unset => r.data == AbiPtr::Null && r.count == 0,
        ListOpt::Ref(c) => borrowed_list_shape(c.addr, c.items@.len(), r),
        ListOpt::Mut(c) => borrowed_list_shape(c.addr, c.items@.len(), r),
        ListOpt::Owned(v) => if v@.len() == 0 {
            r.data == AbiPtr::Null && r.count == 0
        } else {
            exists|i: usize|
                {
                    &&& i < arena@.len()
                    &&& #[trigger] arena@[i as int] matches ArenaBuf::U32s(a) && a@ == v@
                    &&& r.data == (AbiPtr::Arena { buf: i })
                    &&& r.count == v@.len()
                }
        },
    }
}

/// The shape a borrowed list field translates to: zero-copy, {null, 0} when
/// empty.
pub open spec fn borrowed_list_shape<T>(addr: u64, len: nat, r: RawList<T>) -> bool {
    if len == 0 {
        r.data == AbiPtr::Null && r.count == 0
    } else {
        r.data == (AbiPtr::Borrowed { addr }) && r.count == len
    }
}

/// `u32_list_translated`, for scalar lists.
pub open spec fn real_list_translated(src: ListOpt<Real>, r: RawList<Real>, arena: Arena) -> bool {
    match src {
        ListOpt::Unset => r.data == AbiPtr::Null && r.count == 0,
        ListOpt::Ref(c) => borrowed_list_shape(c.addr, c.items@.len(), r),
        ListOpt::Mut(c) => borrowed_list_shape(c.addr, c.items@.len(), r),
        ListOpt::Owned(v) => if v@.len() == 0 {
            r.data == AbiPtr::Null && r.count == 0
        } else {
            exists|i: usize|
                {
                    &&& i < arena@.len()
                    &&& #[trigger] arena@[i as int] matches ArenaBuf::Reals(a) && a@ == v@
                    &&& r.data == (AbiPtr::Arena { buf: i })
                    &&& r.count == v@.len()
                }
        },
    }
}

/// `u32_list_translated`, for transform-override lists.
pub open spec fn transform_override_list_translated(
    src: ListOpt<TransformOverride>,
    r: RawList<TransformOverride>,
    arena: Arena,
) -> bool {
    match src {
        ListOpt::Unset => r.data == AbiPtr::Null && r.count == 0,
        ListOpt::Ref(c) => borrowed_list_shape(c.addr, c.items@.len(), r),
        ListOpt::Mut(c) => borrowed_list_shape(c.addr, c.items@.len(), r),
        ListOpt::Owned(v) => if v@.len() == 0 {
            r.data == AbiPtr::Null && r.count == 0
        } else {
            exists|i: usize|
                {
                    &&& i < arena@.len()
                    &&& #[trigger] arena@[i as int] matches ArenaBuf::TransformOverrides(a) && a@
                        == v@
                    &&& r.data == (AbiPtr::Arena { buf: i })
                    &&& r.count == v@.len()
                }
        },
    }
}

impl ListOpt<u32> {
    /// Translates this field into a flat ABI list reference: borrowed lists
    /// are aliased zero-copy, owned lists move into the arena.
    pub fn from_rust(self, arena: &mut Arena) -> (r: RawList<u32>)
        ensures
            arena_extends(*final(arena), *old(arena)),
            u32_list_translated(self, r, *final(arena)),
            self is Unset ==> final(arena)@ == old(arena)@,
            self is Ref ==> final(arena)@ == old(arena)@,
            self is Mut ==> final(arena)@ == old(arena)@,
            self matches ListOpt::Owned(v) ==> if v@.len() == 0 {
                final(arena)@ == old(arena)@
            } else {
                final(arena)@ == old(arena)@.push(ArenaBuf::U32s(v))
            },
    {
        match self {
            ListOpt::Unset => RawList::null(),
            ListOpt::Ref(c) => borrowed_u32_list(c),
            ListOpt::Mut(c) => borrowed_u32_list(c),
            ListOpt::Owned(v) => {
                let n = arena.len();
                let ghost pre = arena@;
                let r = arena.push_u32s(v);
                proof {
                    if v@.len() > 0 {
                        let w = n;
                        assert(w == pre.len());
                        assert(arena@[w as int] == ArenaBuf::U32s(v));
                        assert(u32_list_translated(ListOpt::Owned(v), r, *arena)) by {
                            assert({
                                &&& w < arena@.len()
                                &&& arena@[w as int] matches ArenaBuf::U32s(a) && a@ == v@
                                &&& r.data == (AbiPtr::Arena { buf: w })
                                &&& r.count == v@.len()
                            });
                        }
                    }
                }
                r
            },
        }
    }
}

impl ListOpt<Real> {
    /// Translates this field into a flat ABI list reference: borrowed lists
    /// are aliased zero-copy, owned lists move into the arena.
    pub fn from_rust(self, arena: &mut Arena) -> (r: RawList<Real>)
        ensures
            arena_extends(*final(arena), *old(arena)),
            real_list_translated(self, r, *final(arena)),
            self is Unset ==> final(arena)@ == old(arena)@,
            self is Ref ==> final(arena)@ == old(arena)@,
            self is Mut ==> final(arena)@ == old(arena)@,
            self matches ListOpt::Owned(v) ==> if v@.len() == 0 {
                final(arena)@ == old(arena)@
            } else {
                final(arena)@ == old(arena)@.push(ArenaBuf::Reals(v))
            },
    {
        match self {
            ListOpt::Unset => RawList::null(),
            ListOpt::Ref(c) => borrowed_real_list(c),
            ListOpt::Mut(c) => borrowed_real_list(c),
            ListOpt::Owned(v) => {
                let n = arena.len();
                let ghost pre = arena@;
                let r = arena.push_reals(v);
                proof {
                    if v@.len() > 0 {
                        let w = n;
                        assert(w == pre.len());
                        assert(arena@[w as int] == ArenaBuf::Reals(v));
                        assert(real_list_translated(ListOpt::Owned(v), r, *arena)) by {
                            assert({
                                &&& w < arena@.len()
                                &&& arena@[w as int] matches ArenaBuf::Reals(a) && a@ == v@
                                &&& r.data == (AbiPtr::Arena { buf: w })
                                &&& r.count == v@.len()
                            });
                        }
                    }
                }
                r
            },
        }
    }
}

impl ListOpt<TransformOverride> {
    /// Translates this field into a flat ABI list reference: borrowed lists
    /// are aliased zero-copy, owned lists move into the arena.
    pub fn from_rust(self, arena: &mut Arena) -> (r: RawList<TransformOverride>)
        ensures
            arena_extends(*final(arena), *old(arena)),
            transform_override_list_translated(self, r, *final(arena)),
            self is Unset ==> final(arena)@ == old(arena)@,
            self is Ref ==> final(arena)@ == old(arena)@,
            self is Mut ==> final(arena)@ == old(arena)@,
            self matches ListOpt::Owned(v) ==> if v@.len() == 0 {
                final(arena)@ == old(arena)@
            } else {
                final(arena)@ == old(arena)@.push(ArenaBuf::TransformOverrides(v))
            },
    {
        match self {
            ListOpt::Unset => RawList::null(),
            ListOpt::Ref(c) => borrowed_transform_override_list(c),
            ListOpt::Mut(c) => borrowed_transform_override_list(c),
            ListOpt::Owned(v) => {
                let n = arena.len();
                let ghost pre = arena@;
                let r = arena.push_transform_overrides(v);
                proof {
                    if v@.len() > 0 {
                        let w = n;
                        assert(w == pre.len());
                        assert(arena@[w as int] == ArenaBuf::TransformOverrides(v));
                        assert(transform_override_list_translated(ListOpt::Owned(v), r, *arena)) by {
                            assert({
                                &&& w < arena@.len()
                                &&& arena@[w as int] matches ArenaBuf::TransformOverrides(a) && a@ == v@
                                &&& r.data == (AbiPtr::Arena { buf: w })
                                &&& r.count == v@.len()
                            });
                        }
                    }
                }
                r
            },
        }
    }
}

fn borrowed_u32_list(c: CallerSlice<u32>) -> (r: RawList<u32>)
    ensures
        borrowed_list_shape(c.addr, c.items@.len(), r),
{
    if c.items.len() == 0 {
        RawList::null()
    } else {
        RawList {
            data: AbiPtr::Borrowed { addr: c.addr },
            count: c.items.len(),
            _marker: core::marker::PhantomData,
        }
    }
}

fn borrowed_real_list(c: CallerSlice<Real>) -> (r: RawList<Real>)
    ensures
        borrowed_list_shape(c.addr, c.items@.len(), r),
{
    if c.items.len() == 0 {
        RawList::null()
    } else {
        RawList {
            data: AbiPtr::Borrowed { addr: c.addr },
            count: c.items.len(),
            _marker: core::marker::PhantomData,
        }
    }
}

fn borrowed_transform_override_list(c: CallerSlice<TransformOverride>) -> (r: RawList<
    TransformOverride,
>)
    ensures
        borrowed_list_shape(c.addr, c.items@.len(), r),
{
    if c.items.len() == 0 {
        RawList::null()
    } else {
        RawList {
            data: AbiPtr::Borrowed { addr: c.addr },
            count: c.items.len(),
            _marker: core::marker::PhantomData,
        }
    }
}


/// A translated plain-element list field stays translated while the arena
/// only grows.
pub proof fn lemma_u32_list_translated_stable(
    src: ListOpt<u32>,
    r: RawList<u32>,
    pre: Arena,
    post: Arena,
)
    requires
        u32_list_translated(src, r, pre),
        arena_extends(post, pre),
    ensures
        u32_list_translated(src, r, post),
{
    if let ListOpt::Owned(v) = src {
        if v@.len() > 0 {
            let i = choose|i: usize|
                {
                    &&& i < pre@.len()
                    &&& #[trigger] pre@[i as int] matches ArenaBuf::U32s(a) && a@ == v@
                    &&& r.data == (AbiPtr::Arena { buf: i })
                    &&& r.count == v@.len()
                };
            assert(post@[i as int] == pre@[i as int]);
        }
    }
}

/// A translated scalar list field stays translated while the arena only
/// grows.
pub proof fn lemma_real_list_translated_stable(
    src: ListOpt<Real>,
    r: RawList<Real>,
    pre: Arena,
    post: Arena,
)
    requires
        real_list_translated(src, r, pre),
        arena_extends(post, pre),
    ensures
        real_list_translated(src, r, post),
{
    if let ListOpt::Owned(v) = src {
        if v@.len() > 0 {
            let i = choose|i: usize|
                {
                    &&& i < pre@.len()
                    &&& #[trigger] pre@[i as int] matches ArenaBuf::Reals(a) && a@ == v@
                    &&& r.data == (AbiPtr::Arena { buf: i })
                    &&& r.count == v@.len()
                };
            assert(post@[i as int] == pre@[i as int]);
        }
    }
}

/// A translated transform-override list field stays translated while the
/// arena only grows.
pub proof fn lemma_transform_override_list_translated_stable(
    src: ListOpt<TransformOverride>,
    r: RawList<TransformOverride>,
    pre: Arena,
    post: Arena,
)
    requires
        transform_override_list_translated(src, r, pre),
        arena_extends(post, pre),
    ensures
        transform_override_list_translated(src, r, post),
{
    if let ListOpt::Owned(v) = src {
        if v@.len() > 0 {
            let i = choose|i: usize|
                {
                    &&& i < pre@.len()
                    &&& #[trigger] pre@[i as int] matches ArenaBuf::TransformOverrides(a) && a@
                        == v@
                    &&& r.data == (AbiPtr::Arena { buf: i })
                    &&& r.count == v@.len()
                };
            assert(post@[i as int] == pre@[i as int]);
        }
    }
}


/// An unset string field translates to the zero/null representation.
pub proof fn lemma_unset_string_is_null(r: RawString, arena: Arena)
    requires
        string_translated(StringOpt::Unset, r, arena),
    ensures
        r.data == AbiPtr::Null,
        r.length == 0,
{
}

/// An unset blob field translates to the zero/null representation.
pub proof fn lemma_unset_blob_is_null(r: RawBlob, arena: Arena)
    requires
        blob_translated(BlobOpt::Unset, r, arena),
    ensures
        r.data == AbiPtr::Null,
        r.size == 0,
{
}

/// An unset list field translates to the zero/null representation.
pub proof fn lemma_unset_list_is_null(r: RawList<u32>, arena: Arena)
    requires
        u32_list_translated(ListOpt::Unset, r, arena),
    ensures
        r.data == AbiPtr::Null,
        r.count == 0,
{
}

/// A borrowed, non-empty string field translates to a pointer identical to
/// the caller's memory address, with no copy made into the arena.
pub proof fn lemma_borrowed_string_zero_copy(c: CallerStr, r: RawString, arena: Arena)
    requires
        string_translated(StringOpt::Ref(c), r, arena),
        c.text@.len() > 0,
    ensures
        r.data == (AbiPtr::Borrowed { addr: c.addr }),
        r.length == c.text@.len(),
{
}

/// A borrowed, non-empty blob field translates to a pointer identical to
/// the caller's memory address, with no copy made into the arena.
pub proof fn lemma_borrowed_blob_zero_copy(c: CallerBytes, r: RawBlob, arena: Arena)
    requires
        blob_translated(BlobOpt::Ref(c), r, arena),
        c.bytes@.len() > 0,
    ensures
        r.data == (AbiPtr::Borrowed { addr: c.addr }),
        r.size == c.bytes@.len(),
{
}

/// An empty string field — unset, borrowed-empty or owned-empty alike —
/// translates to {null pointer, zero length}, never to a non-null pointer
/// to zero-sized storage.
pub proof fn lemma_empty_string_is_null(src: StringOpt, r: RawString, arena: Arena)
    requires
        string_translated(src, r, arena),
        src matches StringOpt::Ref(c) ==> c.text@.len() == 0,
        src matches StringOpt::Owned(s) ==> s@.len() == 0,
    ensures
        r.data == AbiPtr::Null,
        r.length == 0,
{
}

/// An empty blob field translates to {null pointer, zero length}.
pub proof fn lemma_empty_blob_is_null(src: BlobOpt, r: RawBlob, arena: Arena)
    requires
        blob_translated(src, r, arena),
        src matches BlobOpt::Ref(c) ==> c.bytes@.len() == 0,
        src matches BlobOpt::Owned(b) ==> b@.len() == 0,
    ensures
        r.data == AbiPtr::Null,
        r.size == 0,
{
}

/// An empty list field translates to {null pointer, zero count}.
pub proof fn lemma_empty_list_is_null(src: ListOpt<u32>, r: RawList<u32>, arena: Arena)
    requires
        u32_list_translated(src, r, arena),
        src matches ListOpt::Ref(c) ==> c.items@.len() == 0,
        src matches ListOpt::Mut(c) ==> c.items@.len() == 0,
        src matches ListOpt::Owned(v) ==> v@.len() == 0,
    ensures
        r.data == AbiPtr::Null,
        r.count == 0,
{
}

/// An owned, non-empty string field is backed by arena memory whose content
/// equals the input, and stays so for as long as the arena only grows —
/// that is, until the arena is dropped.
pub proof fn lemma_owned_string_arena_backed(s: String, r: RawString, pre: Arena, post: Arena)
    requires
        string_translated(StringOpt::Owned(s), r, pre),
        s@.len() > 0,
        arena_extends(post, pre),
    ensures
        exists|i: usize|
            {
                &&& i < post@.len()
                &&& #[trigger] post@[i as int] matches ArenaBuf::Text(t) && t@ == s@
                &&& r.data == (AbiPtr::Arena { buf: i })
                &&& r.length == s@.len()
            },
{
    lemma_string_translated_stable(StringOpt::Owned(s), r, pre, post);
}

/// An owned, non-empty blob field is backed by arena memory whose content
/// equals the input, for as long as the arena only grows.
pub proof fn lemma_owned_blob_arena_backed(b: Vec<u8>, r: RawBlob, pre: Arena, post: Arena)
    requires
        blob_translated(BlobOpt::Owned(b), r, pre),
        b@.len() > 0,
        arena_extends(post, pre),
    ensures
        exists|i: usize|
            {
                &&& i < post@.len()
                &&& #[trigger] post@[i as int] matches ArenaBuf::Bytes(a) && a@ == b@
                &&& r.data == (AbiPtr::Arena { buf: i })
                &&& r.size == b@.len()
            },
{
    lemma_blob_translated_stable(BlobOpt::Owned(b), r, pre, post);
}

} // verus!
