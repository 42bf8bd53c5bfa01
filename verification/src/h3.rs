use vstd::prelude::*;

verus! {

/// `h3o::CellIndex` is a validated 64-bit H3 cell identifier; it is opaque
/// here, carried through unchanged.
#[verifier::external_type_specification]
#[verifier::external_body]
pub struct ExCellIndex(h3o::CellIndex);

/// The raw 64-bit value of a cell index, as `u64::from(CellIndex)` returns
/// it (`h3o` stores a cell index as a `NonZeroU64`).
pub uninterp spec fn cell_raw(c: h3o::CellIndex) -> u64;

/// The lowercase hexadecimal digit standing for a value below sixteen.
pub open spec fn hex_digit(d: int) -> char {
    if d == 0 {
        '0'
    } else if d == 1 {
        '1'
    } else if d == 2 {
        '2'
    } else if d == 3 {
        '3'
    } else if d == 4 {
        '4'
    } else if d == 5 {
        '5'
    } else if d == 6 {
        '6'
    } else if d == 7 {
        '7'
    } else if d == 8 {
        '8'
    } else if d == 9 {
        '9'
    } else if d == 10 {
        'a'
    } else if d == 11 {
        'b'
    } else if d == 12 {
        'c'
    } else if d == 13 {
        'd'
    } else if d == 14 {
        'e'
    } else {
        'f'
    }
}

/// The lowercase hexadecimal rendering of `v`: most significant digit
/// first, no leading zeros, no prefix. This is the canonical textual form
/// of a cell index, applied to its raw 64-bit value.
pub open spec fn hex_text(v: int) -> Seq<char>
    decreases v,
{
    if v < 16 {
        seq![hex_digit(v)]
    } else {
        hex_text(v / 16).push(hex_digit(v % 16))
    }
}

/// Relies on `h3o`'s `Display` for `CellIndex`: it formats the inner
/// `NonZeroU64` with `{:x}`, i.e. writes the raw 64-bit value in lowercase
/// hexadecimal, a deterministic, total function of the cell index alone.
#[verifier::external_body]
fn cell_to_string(c: h3o::CellIndex) -> (r: String)
    ensures
        r@ == hex_text(cell_raw(c) as int),
{
    c.to_string()
}

/// An opaque, copyable wrapper holding exactly one validated H3 cell index,
/// so that the host can carry such values as elements of a generic vector.
#[derive(Debug, Clone, Copy)]
pub struct H3 {
    pub index: h3o::CellIndex,
}

impl From<h3o::CellIndex> for H3 {
    /// Consumes a validated cell index into its wrapper; infallible and total.
    fn from(index: h3o::CellIndex) -> (r: Self) {
        H3 { index }
    }
}

impl vstd::std_specs::convert::FromSpecImpl<h3o::CellIndex> for H3 {
    open spec fn obeys_from_spec() -> bool {
        true
    }

    open spec fn from_spec(index: h3o::CellIndex) -> Self {
        H3 { index }
    }
}

/// The fixed ordered triple of class tags, most specific first, under
/// which the host's dynamic type system registers a vector of `H3` values.
pub open spec fn class_identity() -> Seq<Seq<char>> {
    seq!["H3"@, "vctrs_vctr"@, "list"@]
}

/// Returns the class tags for a vector of `H3` values: the same ordered
/// triple on every call, whatever happened before, with no inputs and no
/// side effects.
pub fn vctrs_class() -> (r: [String; 3])
    ensures
        r@.len() == 3,
        forall|i: int| 0 <= i < 3 ==> (#[trigger] r@[i])@ == class_identity()[i],
{
    [String::from_str("H3"), String::from_str("vctrs_vctr"), String::from_str("list")]
}

/// Converts a batch of dynamically typed elements, already probed for a
/// cell wrapper, into their canonical strings. `Some(h)` stands for an
/// element from which a wrapper was extracted; `None` for an absent,
/// foreign-typed or otherwise non-coercible element. In the result,
/// `Some(s)` is the canonical rendering of the corresponding cell index and
/// `None` the missing-value marker. The conversion is length-preserving,
/// positionally aligned, and never fails for the batch as a whole: a
/// non-conforming element yields a marker at its own position and nothing
/// else.
pub fn h3_to_strings(x: &Vec<Option<H3>>) -> (r: Vec<Option<String>>)
    ensures
        r@.len() == x@.len(),
        forall|i: int|
            0 <= i < x@.len() ==> match #[trigger] x@[i] {
                Some(h) => r@[i] matches Some(s) && s@ == hex_text(cell_raw(h.index) as int),
                None => r@[i] is None,
            },
{
    let mut r: Vec<Option<String>> = Vec::new();
    let mut k: usize = 0;
    while k < x.len()
        invariant
            0 <= k <= x@.len(),
            r@.len() == k,
            forall|i: int|
                0 <= i < k ==> match #[trigger] x@[i] {
                    Some(h) => r@[i] matches Some(s) && s@ == hex_text(cell_raw(h.index) as int),
                    None => r@[i] is None,
                },
        decreases x@.len() - k,
    {
        match &x[k] {
            Some(h) => r.push(Some(cell_to_string(h.index))),
            None => r.push(None),
        }
        k = k + 1;
    }
    r
}

/// Class identity stability: any two results of `vctrs_class`, whenever
/// obtained and in whatever order, carry the same three tags in the same
/// order: the tags are a function of nothing.
pub proof fn lemma_class_identity_stable(a: [String; 3], b: [String; 3])
    requires
        forall|i: int| 0 <= i < 3 ==> (#[trigger] a@[i])@ == class_identity()[i],
        forall|i: int| 0 <= i < 3 ==> (#[trigger] b@[i])@ == class_identity()[i],
    ensures
        forall|i: int| 0 <= i < 3 ==> (#[trigger] a@[i])@ == b@[i]@,
{
}

} // verus!
