//! Bit-flag values reported by the engine, and the shared helper that
//! renders a set of flags as text.

use vstd::prelude::*;
use vstd::string::StringExecFns;

verus! {

/// Engine-reported bit flags.
#[derive(Clone, Copy, PartialEq, Eq, Structural, Debug)]
pub struct PropFlags(pub u32);

impl PropFlags {
    /// Whether any flag at all is set.
    pub fn any(self) -> (r: bool)
        ensures
            r == (self.0 != 0),
    {
        self.0 != 0
    }

    /// Whether any of the given flags is set.
    pub fn has_any(self, bits: Self) -> (r: bool)
        ensures
            r == ((self.0 & bits.0) != 0),
    {
        (self.0 & bits.0) != 0
    }

    /// Whether all of the given flags are set.
    pub fn has_all(self, bits: Self) -> (r: bool)
        ensures
            r == ((self.0 & bits.0) == bits.0),
    {
        (self.0 & bits.0) == bits.0
    }
}

impl Default for PropFlags {
    fn default() -> (r: Self)
        ensures
            r.0 == 0,
    {
        PropFlags(0)
    }
}

/// Engine-reported bit flags.
#[derive(Clone, Copy, PartialEq, Eq, Structural, Debug)]
pub struct TopoFlags(pub u32);

impl TopoFlags {

    /// Whether any flag at all is set.
    pub fn any(self) -> (r: bool)
        ensures
            r == (self.0 != 0),
    {
        self.0 != 0
    }

    /// Whether any of the given flags is set.
    pub fn has_any(self, bits: Self) -> (r: bool)
        ensures
            r == ((self.0 & bits.0) != 0),
    {
        (self.0 & bits.0) != 0
    }

    /// Whether all of the given flags are set.
    pub fn has_all(self, bits: Self) -> (r: bool)
        ensures
            r == ((self.0 & bits.0) == bits.0),
    {
        (self.0 & bits.0) == bits.0
    }
}

impl Default for TopoFlags {
    fn default() -> (r: Self)
        ensures
            r.0 == 0,
    {
        TopoFlags(0)
    }
}

/// Engine-reported bit flags.
#[derive(Clone, Copy, PartialEq, Eq, Structural, Debug)]
pub struct BakedKeyFlags(pub u32);

impl BakedKeyFlags {

    /// Whether any flag at all is set.
    pub fn any(self) -> (r: bool)
        ensures
            r == (self.0 != 0),
    {
        self.0 != 0
    }

    /// Whether any of the given flags is set.
    pub fn has_any(self, bits: Self) -> (r: bool)
        ensures
            r == ((self.0 & bits.0) != 0),
    {
        (self.0 & bits.0) != 0
    }

    /// Whether all of the given flags are set.
    pub fn has_all(self, bits: Self) -> (r: bool)
        ensures
            r == ((self.0 & bits.0) == bits.0),
    {
        (self.0 & bits.0) == bits.0
    }
}

impl Default for BakedKeyFlags {
    fn default() -> (r: Self)
        ensures
            r.0 == 0,
    {
        BakedKeyFlags(0)
    }
}

/// Engine-reported bit flags.
#[derive(Clone, Copy, PartialEq, Eq, Structural, Debug)]
pub struct TransformFlags(pub u32);

impl TransformFlags {

    /// Whether any flag at all is set.
    pub fn any(self) -> (r: bool)
        ensures
            r == (self.0 != 0),
    {
        self.0 != 0
    }

    /// Whether any of the given flags is set.
    pub fn has_any(self, bits: Self) -> (r: bool)
        ensures
            r == ((self.0 & bits.0) != 0),
    {
        (self.0 & bits.0) != 0
    }

    /// Whether all of the given flags are set.
    pub fn has_all(self, bits: Self) -> (r: bool)
        ensures
            r == ((self.0 & bits.0) == bits.0),
    {
        (self.0 & bits.0) == bits.0
    }
}

impl Default for TransformFlags {
    fn default() -> (r: Self)
        ensures
            r.0 == 0,
    {
        TransformFlags(0)
    }
}

/// The text `format_flags` renders for the remaining name table, given
/// whether some name was already written.
pub open spec fn flags_text(names: Seq<(&str, u32)>, value: u32, has_any: bool) -> Seq<char>
    decreases names.len(),
{
    if names.len() == 0 {
        if has_any {
            Seq::<char>::empty()
        } else {
            "NONE"@
        }
    } else {
        if value & names[0].1 != 0 {
            (if has_any {
                "|"@
            } else {
                Seq::<char>::empty()
            }) + names[0].0@ + flags_text(names.drop_first(), value, true)
        } else {
            flags_text(names.drop_first(), value, has_any)
        }
    }
}

/// Renders the set flags of `value` as the matching names of the table,
/// separated by `|`; `NONE` when no listed flag is set.
pub fn format_flags(names: &[(&str, u32)], value: u32) -> (r: String)
    ensures
        r@ == flags_text(names@, value, false),
{
    let mut out = String::new();
    let mut has_any = false;
    let mut i: usize = 0;
    proof {
        assert(names@.skip(0) =~= names@);
    }
    while i < names.len()
        invariant
            i <= names@.len(),
            flags_text(names@, value, false) == out@ + flags_text(
                names@.skip(i as int),
                value,
                has_any,
            ),
        decreases names@.len() - i,
    {
        let ghost rest = names@.skip(i as int);
        let pair = names[i];
        proof {
            assert(rest[0] == names@[i as int]);
            assert(rest.drop_first() =~= names@.skip(i as int + 1));
        }
        if value & pair.1 != 0 {
            if has_any {
                out.append("|");
            }
            out.append(pair.0);
            has_any = true;
        }
        i = i + 1;
    }
    proof {
        assert(names@.skip(names@.len() as int) =~= Seq::<(&str, u32)>::empty());
    }
    if !has_any {
        out.append("NONE");
    }
    proof {
        assert(out@ + Seq::<char>::empty() =~= out@);
    }
    out
}

} // verus!
